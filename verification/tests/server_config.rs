use sahl::config::{Config, ConfigError, EnvRead, required_u32, required_u64, required_value};

#[test]
fn a_missing_variable_is_named_in_the_error() {
    // Operators debug these at 3am; the message has to say which one.
    let error = required_value("SAHL_DEFINITELY_NOT_SET_XYZ", EnvRead::NotPresent).unwrap_err();
    assert_eq!(
        error,
        ConfigError::Missing {
            name: "SAHL_DEFINITELY_NOT_SET_XYZ"
        }
    );
    assert!(error.message().contains("SAHL_DEFINITELY_NOT_SET_XYZ"));
}

fn valid() -> Config {
    Config {
        database_url: "postgres://localhost/sahl".to_owned(),
        database_max_connections: 5,
        bind_address: "127.0.0.1:8080".to_owned(),
        enrollment_token_ttl_secs: 900,
        signature_max_skew_secs: 300,
    }
}

#[test]
fn a_valid_configuration_passes() {
    assert_eq!(valid().validate(), Ok(()));
}

#[test]
fn a_non_postgres_url_is_rejected() {
    let mut config = valid();
    config.database_url = "mysql://localhost/sahl".to_owned();
    assert!(config.validate().is_err());
}

#[test]
fn a_zero_connection_pool_is_rejected() {
    let mut config = valid();
    config.database_max_connections = 0;
    assert!(config.validate().is_err());
}

#[test]
fn an_unbounded_skew_window_is_rejected() {
    // A wide window means a captured request stays replayable for as long as it lasts.
    let mut config = valid();
    config.signature_max_skew_secs = 86_400;
    assert!(config.validate().is_err());

    config.signature_max_skew_secs = 0;
    assert!(config.validate().is_err());
}

#[test]
fn each_setting_is_refused_with_its_own_name_and_reason() {
    let mut config = valid();
    config.database_url = "mysql://localhost/sahl".to_owned();
    assert_eq!(
        config.validate(),
        Err(ConfigError::Invalid {
            name: "DATABASE_URL",
            reason: "must be a postgres:// connection string".to_owned()
        })
    );

    let mut config = valid();
    config.database_url = "postgresql://localhost/sahl".to_owned();
    assert_eq!(config.validate(), Ok(()));

    let mut config = valid();
    config.enrollment_token_ttl_secs = 0;
    assert_eq!(
        config.validate(),
        Err(ConfigError::Invalid {
            name: "SAHL_ENROLLMENT_TOKEN_TTL_SECONDS",
            reason: "must be greater than zero".to_owned()
        })
    );

    let mut config = valid();
    config.signature_max_skew_secs = 3_600;
    assert_eq!(config.validate(), Ok(()));
    config.signature_max_skew_secs = 3_601;
    assert_eq!(
        config.validate(),
        Err(ConfigError::Invalid {
            name: "SAHL_SIGNATURE_MAX_SKEW_SECONDS",
            reason: "must be between 1 and 3600 seconds".to_owned()
        })
    );
}

#[test]
fn a_blank_or_unreadable_variable_is_refused() {
    assert_eq!(
        required_value("X", EnvRead::Present("  \n".to_owned())),
        Err(ConfigError::Missing { name: "X" })
    );
    assert_eq!(required_value("X", EnvRead::NotUnicode), Err(ConfigError::NotUnicode { name: "X" }));
    assert_eq!(required_value("X", EnvRead::Present(" v ".to_owned())), Ok(" v ".to_owned()));
}

#[test]
fn numbers_are_read_without_surrounding_whitespace() {
    assert_eq!(required_u32("N", EnvRead::Present(" 12 ".to_owned())), Ok(12));
    assert_eq!(required_u64("N", EnvRead::Present("900".to_owned())), Ok(900));
    assert!(matches!(
        required_u32("N", EnvRead::Present("twelve".to_owned())),
        Err(ConfigError::Invalid { name: "N", .. })
    ));
    assert!(matches!(
        required_u64("N", EnvRead::Present("-1".to_owned())),
        Err(ConfigError::Invalid { name: "N", .. })
    ));
}

fn present(text: &str) -> EnvRead {
    EnvRead::Present(text.to_owned())
}

#[test]
fn the_whole_configuration_is_read_in_order() {
    let config = Config::from_reads(
        present("postgres://localhost/sahl"),
        present("5"),
        Ok("127.0.0.1:8080".to_owned()),
        present("900"),
        present("300"),
    )
    .expect("valid");
    assert_eq!(config.database_max_connections, 5);
    assert_eq!(config.enrollment_token_ttl_secs, 900);
    assert_eq!(config.signature_max_skew_secs, 300);

    // The first problem in reading order is the one reported.
    let error = Config::from_reads(
        EnvRead::NotPresent,
        EnvRead::NotPresent,
        Ok("127.0.0.1:8080".to_owned()),
        present("900"),
        present("300"),
    )
    .unwrap_err();
    assert_eq!(error, ConfigError::Missing { name: "DATABASE_URL" });

    let error = Config::from_reads(
        present("postgres://localhost/sahl"),
        present("5"),
        Err(ConfigError::Missing { name: "SAHL_BIND_ADDRESS" }),
        EnvRead::NotPresent,
        present("300"),
    )
    .unwrap_err();
    assert_eq!(error, ConfigError::Missing { name: "SAHL_BIND_ADDRESS" });

    // Reading succeeds, then the whole is checked.
    let error = Config::from_reads(
        present("postgres://localhost/sahl"),
        present("5"),
        Ok("127.0.0.1:8080".to_owned()),
        present("900"),
        present("86400"),
    )
    .unwrap_err();
    assert!(matches!(error, ConfigError::Invalid { name: "SAHL_SIGNATURE_MAX_SKEW_SECONDS", .. }));
}

#[test]
fn every_configuration_error_names_its_variable() {
    assert_eq!(
        ConfigError::Missing { name: "A" }.message(),
        "required environment variable A is not set"
    );
    assert_eq!(
        ConfigError::NotUnicode { name: "B" }.message(),
        "environment variable B is not valid UTF-8"
    );
    assert_eq!(
        ConfigError::Invalid { name: "C", reason: "bad".to_owned() }.message(),
        "environment variable C is invalid: bad"
    );
}

#[test]
fn only_the_migrations_not_yet_applied_are_pending() {
    let embedded = vec![20250101, 20250201, 20250301, 20250401];
    let applied = vec![20250301, 20250101, 19990101];
    assert_eq!(
        sahl::cli::missing_migrations(&embedded, &applied),
        vec![20250201, 20250401]
    );
    assert_eq!(sahl::cli::missing_migrations(&embedded, &embedded), Vec::<i64>::new());
    assert_eq!(sahl::cli::missing_migrations(&embedded, &Vec::new()), embedded);
}

#[test]
fn numbers_are_read_the_way_std_reads_them() {
    assert_eq!(required_u32("N", EnvRead::Present("+7".to_owned())), Ok(7));
    assert!(required_u32("N", EnvRead::Present("-7".to_owned())).is_err());
    assert!(required_u32("N", EnvRead::Present("4294967296".to_owned())).is_err());
    assert_eq!(required_u64("N", EnvRead::Present("007".to_owned())), Ok(7));
}
