//! The server's startup configuration, validated eagerly.
//!
//! There are no defaults and no fallbacks: every value is required, and a missing or malformed one
//! stops the server before it accepts a request. A server that quietly starts with a wrong replay
//! window fails weeks later, as a wrong number in a merchant's report.

use vstd::prelude::*;
use crate::codec::{parse_u32, parse_u64, u32_value, u64_value};
use crate::text::{starts_with, strip_prefix, trim, trim_chars};

verus! {

#[derive(Debug, Clone, PartialEq, Eq)]
pub enum ConfigError {
    Missing { name: &'static str },
    NotUnicode { name: &'static str },
    Invalid { name: &'static str, reason: String },
}

/// What a configuration error says to an operator: always the variable's name.
pub open spec fn config_message(error: ConfigError) -> Seq<char> {
    match error {
        ConfigError::Missing { name } => "required environment variable "@ + name@ + " is not set"@,
        ConfigError::NotUnicode { name } => "environment variable "@ + name@ + " is not valid UTF-8"@,
        ConfigError::Invalid { name, reason } => "environment variable "@ + name@ + " is invalid: "@ + reason@,
    }
}

impl ConfigError {
    /// The error as a sentence naming the variable: operators debug these at 3am.
    pub fn message(&self) -> (r: String)
        ensures
            r@ == config_message(*self),
    {
        match self {
            ConfigError::Missing { name } => {
                let mut text = "required environment variable ".to_owned();
                text.append(name);
                text.append(" is not set");
                text
            },
            ConfigError::NotUnicode { name } => {
                let mut text = "environment variable ".to_owned();
                text.append(name);
                text.append(" is not valid UTF-8");
                text
            },
            ConfigError::Invalid { name, reason } => {
                let mut text = "environment variable ".to_owned();
                text.append(name);
                text.append(" is invalid: ");
                text.append(reason.as_str());
                text
            },
        }
    }
}

/// The server's settings, as read from the environment.
#[derive(Debug, Clone)]
pub struct Config {
    /// Postgres connection string. The role must not hold `BYPASSRLS`.
    pub database_url: String,
    /// Maximum pooled connections.
    pub database_max_connections: u32,
    /// Address to bind the HTTP listener to, `host:port`.
    pub bind_address: String,
    /// How long an enrollment token stays usable, in seconds.
    pub enrollment_token_ttl_secs: u64,
    /// How far a signed request's timestamp may drift from server time, in seconds.
    pub signature_max_skew_secs: u64,
}

/// What reading one environment variable found.
#[derive(Debug, Clone, PartialEq, Eq)]
pub enum EnvRead {
    Present(String),
    NotPresent,
    NotUnicode,
}

/// Whether `r` is the `Invalid` error naming `name` for `reason`.
pub open spec fn invalid(r: Result<(), ConfigError>, name: &'static str, reason: Seq<char>) -> bool {
    r matches Err(ConfigError::Invalid { name: n, reason: why }) && n == name && why@ == reason
}

/// A configuration is accepted exactly when its database URL is a Postgres one, its pool holds at
/// least one connection (one is enough), its enrollment tokens live for some time, and its replay
/// window is between one second and an hour. Any other configuration is refused.
pub proof fn law_validation_accepts_exactly_the_usable_configurations(config: Config)
    ensures
        config.validate_spec() <==> {
            &&& (starts_with(config.database_url@, "postgres://"@) || starts_with(config.database_url@, "postgresql://"@))
            &&& config.database_max_connections >= 1
            &&& config.enrollment_token_ttl_secs > 0
            &&& 1 <= config.signature_max_skew_secs <= 3600
        },
        config.database_max_connections == 1 && config.enrollment_token_ttl_secs == 1 && config.signature_max_skew_secs == 3600
            && starts_with(config.database_url@, "postgres://"@) ==> config.validate_spec(),
{
}

impl Config {
    /// Whether every setting is acceptable: a Postgres URL, a non-empty pool, a usable token
    /// lifetime, and a replay window of one second to an hour.
    pub open spec fn validate_spec(&self) -> bool {
        &&& (starts_with(self.database_url@, "postgres://"@) || starts_with(self.database_url@, "postgresql://"@))
        &&& self.database_max_connections != 0
        &&& self.enrollment_token_ttl_secs != 0
        &&& 1 <= self.signature_max_skew_secs <= 3600
    }

    /// Check every setting, reporting the first that is wrong.
    pub fn validate(&self) -> (r: Result<(), ConfigError>)
        ensures
            r is Ok <==> self.validate_spec(),
            r is Ok <==> {
                &&& (starts_with(self.database_url@, "postgres://"@) || starts_with(self.database_url@, "postgresql://"@))
                &&& self.database_max_connections >= 1
                &&& self.enrollment_token_ttl_secs > 0
                &&& 1 <= self.signature_max_skew_secs <= 3600
            },
            !(starts_with(self.database_url@, "postgres://"@) || starts_with(self.database_url@, "postgresql://"@))
                ==> invalid(r, "DATABASE_URL", "must be a postgres:// connection string"@),
            (starts_with(self.database_url@, "postgres://"@) || starts_with(self.database_url@, "postgresql://"@))
                && self.database_max_connections == 0
                ==> invalid(r, "SAHL_DB_MAX_CONNECTIONS", "must be at least 1"@),
            (starts_with(self.database_url@, "postgres://"@) || starts_with(self.database_url@, "postgresql://"@))
                && self.database_max_connections != 0 && self.enrollment_token_ttl_secs == 0
                ==> invalid(r, "SAHL_ENROLLMENT_TOKEN_TTL_SECONDS", "must be greater than zero"@),
            (starts_with(self.database_url@, "postgres://"@) || starts_with(self.database_url@, "postgresql://"@))
                && self.database_max_connections != 0 && self.enrollment_token_ttl_secs != 0
                && !(1 <= self.signature_max_skew_secs <= 3600)
                ==> invalid(r, "SAHL_SIGNATURE_MAX_SKEW_SECONDS", "must be between 1 and 3600 seconds"@),
    {
        let url = self.database_url.as_str();
        if strip_prefix(url, "postgres://").is_none() && strip_prefix(url, "postgresql://").is_none() {
            return Err(ConfigError::Invalid {
                name: "DATABASE_URL",
                reason: "must be a postgres:// connection string".to_owned(),
            });
        }
        if self.database_max_connections == 0 {
            return Err(ConfigError::Invalid { name: "SAHL_DB_MAX_CONNECTIONS", reason: "must be at least 1".to_owned() });
        }
        if self.enrollment_token_ttl_secs == 0 {
            return Err(ConfigError::Invalid {
                name: "SAHL_ENROLLMENT_TOKEN_TTL_SECONDS",
                reason: "must be greater than zero".to_owned(),
            });
        }
        // An unbounded window would accept a replayed request forever.
        if self.signature_max_skew_secs == 0 || self.signature_max_skew_secs > 3600 {
            return Err(ConfigError::Invalid {
                name: "SAHL_SIGNATURE_MAX_SKEW_SECONDS",
                reason: "must be between 1 and 3600 seconds".to_owned(),
            });
        }
        Ok(())
    }
}

/// Turn what reading a required variable found into its value: absent, blank or not Unicode is an
/// error naming the variable.
pub fn required_value(name: &'static str, read: EnvRead) -> (r: Result<String, ConfigError>)
    ensures
        read is NotPresent ==> r == Err::<String, ConfigError>(ConfigError::Missing { name }),
        read is NotUnicode ==> r == Err::<String, ConfigError>(ConfigError::NotUnicode { name }),
        read matches EnvRead::Present(value) ==> {
            if trim_chars(value@).len() == 0 {
                r == Err::<String, ConfigError>(ConfigError::Missing { name })
            } else {
                r == Ok::<String, ConfigError>(value)
            }
        },
{
    match read {
        EnvRead::Present(value) => {
            if trim(value.as_str()).is_empty() {
                Err(ConfigError::Missing { name })
            } else {
                Ok(value)
            }
        },
        EnvRead::NotPresent => Err(ConfigError::Missing { name }),
        EnvRead::NotUnicode => Err(ConfigError::NotUnicode { name }),
    }
}

/// What refuses a required variable outright, if anything: absent, blank, or not Unicode.
pub open spec fn read_failure(name: &'static str, read: EnvRead) -> Option<ConfigError> {
    match read {
        EnvRead::NotPresent => Some(ConfigError::Missing { name }),
        EnvRead::NotUnicode => Some(ConfigError::NotUnicode { name }),
        EnvRead::Present(value) => if trim_chars(value@).len() == 0 { Some(ConfigError::Missing { name }) } else { None },
    }
}

/// The text of a variable that was read, without surrounding whitespace.
pub open spec fn read_text(read: EnvRead) -> Seq<char> {
    match read {
        EnvRead::Present(value) => trim_chars(value@),
        _ => Seq::empty(),
    }
}

/// Whether `r` is the `Invalid` error naming `name`, whatever its reason.
pub open spec fn invalid_named<T>(r: Result<T, ConfigError>, name: &'static str) -> bool {
    r matches Err(ConfigError::Invalid { name: n, .. }) && n == name
}

/// A required variable read as a `u32`. A value that does not parse is invalid, with the parser's
/// reason.
pub fn required_u32(name: &'static str, read: EnvRead) -> (r: Result<u32, ConfigError>)
    ensures
        read_failure(name, read) matches Some(failure) ==> r == Err::<u32, ConfigError>(failure),
        read_failure(name, read) is None ==> match u32_value(read_text(read)) {
            Some(value) => r == Ok::<u32, ConfigError>(value),
            None => invalid_named(r, name),
        },
{
    let raw = match required_value(name, read) {
        Ok(raw) => raw,
        Err(error) => return Err(error),
    };
    match parse_u32(trim(raw.as_str())) {
        Ok(value) => Ok(value),
        Err(reason) => Err(ConfigError::Invalid { name, reason }),
    }
}

/// A required variable read as a `u64`. A value that does not parse is invalid, with the parser's
/// reason.
pub fn required_u64(name: &'static str, read: EnvRead) -> (r: Result<u64, ConfigError>)
    ensures
        read_failure(name, read) matches Some(failure) ==> r == Err::<u64, ConfigError>(failure),
        read_failure(name, read) is None ==> match u64_value(read_text(read)) {
            Some(value) => r == Ok::<u64, ConfigError>(value),
            None => invalid_named(r, name),
        },
{
    let raw = match required_value(name, read) {
        Ok(raw) => raw,
        Err(error) => return Err(error),
    };
    match parse_u64(trim(raw.as_str())) {
        Ok(value) => Ok(value),
        Err(reason) => Err(ConfigError::Invalid { name, reason }),
    }
}

/// The variables the server reads, in the order it reads them.
pub const DATABASE_URL: &'static str = "DATABASE_URL";
pub const DB_MAX_CONNECTIONS: &'static str = "SAHL_DB_MAX_CONNECTIONS";
pub const BIND_ADDRESS: &'static str = "SAHL_BIND_ADDRESS";
pub const ENROLLMENT_TOKEN_TTL_SECONDS: &'static str = "SAHL_ENROLLMENT_TOKEN_TTL_SECONDS";
pub const SIGNATURE_MAX_SKEW_SECONDS: &'static str = "SAHL_SIGNATURE_MAX_SKEW_SECONDS";

impl Config {
    /// Build the configuration from what reading each variable found, in order, reporting the
    /// first that is wrong, then check the whole.
    ///
    /// The listen address is read as a socket address by the caller, which hands over the
    /// outcome.
    pub fn from_reads(
        database_url: EnvRead,
        max_connections: EnvRead,
        bind_address: Result<String, ConfigError>,
        token_ttl: EnvRead,
        max_skew: EnvRead,
    ) -> (r: Result<Config, ConfigError>)
        ensures
            read_failure(DATABASE_URL, database_url) matches Some(failure) ==> r == Err::<Config, ConfigError>(failure),
            read_failure(DATABASE_URL, database_url) is None ==> {
                &&& read_failure(DB_MAX_CONNECTIONS, max_connections) matches Some(failure) ==> r == Err::<Config, ConfigError>(failure)
                &&& read_failure(DB_MAX_CONNECTIONS, max_connections) is None && u32_value(read_text(max_connections)) is None
                    ==> invalid_named(r, DB_MAX_CONNECTIONS)
                &&& read_failure(DB_MAX_CONNECTIONS, max_connections) is None && u32_value(read_text(max_connections)) is Some ==> {
                    &&& bind_address matches Err(failure) ==> r == Err::<Config, ConfigError>(failure)
                    &&& bind_address is Ok ==> {
                        &&& read_failure(ENROLLMENT_TOKEN_TTL_SECONDS, token_ttl) matches Some(failure) ==> r == Err::<Config, ConfigError>(failure)
                        &&& read_failure(ENROLLMENT_TOKEN_TTL_SECONDS, token_ttl) is None && u64_value(read_text(token_ttl)) is None
                            ==> invalid_named(r, ENROLLMENT_TOKEN_TTL_SECONDS)
                        &&& read_failure(ENROLLMENT_TOKEN_TTL_SECONDS, token_ttl) is None && u64_value(read_text(token_ttl)) is Some ==> {
                            &&& read_failure(SIGNATURE_MAX_SKEW_SECONDS, max_skew) matches Some(failure) ==> r == Err::<Config, ConfigError>(failure)
                            &&& read_failure(SIGNATURE_MAX_SKEW_SECONDS, max_skew) is None && u64_value(read_text(max_skew)) is None
                                ==> invalid_named(r, SIGNATURE_MAX_SKEW_SECONDS)
                        }
                    }
                }
            },
            r matches Ok(config) ==> {
                &&& database_url matches EnvRead::Present(url) && config.database_url@ == url@
                &&& Some(config.database_max_connections) == u32_value(read_text(max_connections))
                &&& bind_address matches Ok(address) && config.bind_address@ == address@
                &&& Some(config.enrollment_token_ttl_secs) == u64_value(read_text(token_ttl))
                &&& Some(config.signature_max_skew_secs) == u64_value(read_text(max_skew))
                &&& config.validate_spec()
            },
            read_failure(DATABASE_URL, database_url) is None
                && read_failure(DB_MAX_CONNECTIONS, max_connections) is None
                && bind_address is Ok
                && read_failure(ENROLLMENT_TOKEN_TTL_SECONDS, token_ttl) is None
                && read_failure(SIGNATURE_MAX_SKEW_SECONDS, max_skew) is None
                && u32_value(read_text(max_connections)) is Some
                && u64_value(read_text(token_ttl)) is Some
                && u64_value(read_text(max_skew)) is Some
                ==> (r is Ok <==> (Config {
                    database_url: database_url->0,
                    database_max_connections: u32_value(read_text(max_connections))->0,
                    bind_address: bind_address->Ok_0,
                    enrollment_token_ttl_secs: u64_value(read_text(token_ttl))->0,
                    signature_max_skew_secs: u64_value(read_text(max_skew))->0,
                }).validate_spec()),
    {
        let database_url = match required_value(DATABASE_URL, database_url) {
            Ok(value) => value,
            Err(error) => return Err(error),
        };
        let database_max_connections = match required_u32(DB_MAX_CONNECTIONS, max_connections) {
            Ok(value) => value,
            Err(error) => return Err(error),
        };
        let bind_address = match bind_address {
            Ok(value) => value,
            Err(error) => return Err(error),
        };
        let enrollment_token_ttl_secs = match required_u64(ENROLLMENT_TOKEN_TTL_SECONDS, token_ttl) {
            Ok(value) => value,
            Err(error) => return Err(error),
        };
        let signature_max_skew_secs = match required_u64(SIGNATURE_MAX_SKEW_SECONDS, max_skew) {
            Ok(value) => value,
            Err(error) => return Err(error),
        };
        let config = Config {
            database_url,
            database_max_connections,
            bind_address,
            enrollment_token_ttl_secs,
            signature_max_skew_secs,
        };
        match config.validate() {
            Ok(()) => Ok(config),
            Err(error) => Err(error),
        }
    }
}

} // verus!
