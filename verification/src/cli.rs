//! The server's command line: which job a run does, and what each administrative command's
//! arguments mean.
//!
//! The commands themselves talk to the database from the application; they read their arguments
//! through these.

use vstd::prelude::*;
use crate::codec::{i64_value, parse_i64, parse_uuid, uuid_value};
use crate::text::{strip_prefix, starts_with, str_eq, trim, trim_chars};

verus! {

/// What a run of the server does.
#[derive(Debug, Clone, Copy, PartialEq, Eq)]
pub enum Command {
    /// Apply pending migrations, as a separate privileged deploy step, and exit.
    Migrate,
    IssueToken,
    AddStaff,
    IssueDashboardToken,
    /// Anything else: serve.
    Serve,
}

/// The job named by the first argument.
pub fn command_of(first: Option<&str>) -> (r: Command)
    ensures
        r == match first {
            Some(word) => if word@ == "migrate"@ {
                Command::Migrate
            } else if word@ == "issue-token"@ {
                Command::IssueToken
            } else if word@ == "add-staff"@ {
                Command::AddStaff
            } else if word@ == "issue-dashboard-token"@ {
                Command::IssueDashboardToken
            } else {
                Command::Serve
            },
            None => Command::Serve,
        },
{
    let word = match first {
        Some(word) => word,
        None => return Command::Serve,
    };
    if str_eq(word, "migrate") {
        Command::Migrate
    } else if str_eq(word, "issue-token") {
        Command::IssueToken
    } else if str_eq(word, "add-staff") {
        Command::AddStaff
    } else if str_eq(word, "issue-dashboard-token") {
        Command::IssueDashboardToken
    } else {
        Command::Serve
    }
}

/// The replay window handed to the routes, in seconds, from the configured one.
pub fn skew_seconds(configured: u64) -> (r: i64)
    ensures
        r == if configured <= i64::MAX { configured as i64 } else { 300 },
{
    if configured <= i64::MAX as u64 { configured as i64 } else { 300 }
}

pub const ISSUE_TOKEN_USAGE: &'static str = "usage: sahl-server issue-token <outlet-id> [ttl-seconds]";
pub const ISSUE_DASHBOARD_TOKEN_USAGE: &'static str =
    "usage: sahl-server issue-dashboard-token <outlet-id|tenant:TENANT-ID> <label>";
pub const ADD_STAFF_USAGE: &'static str = "usage: SAHL_STAFF_PIN=… sahl-server add-staff <outlet-id> <role> <name>";

/// How long a minted enrollment token lasts when the command does not say, in seconds.
pub const DEFAULT_TOKEN_TTL_SECONDS: i64 = 900;

/// What `issue-token` was asked for: the outlet, and the token's lifetime in seconds.
pub open spec fn token_request_spec(outlet: Option<Seq<char>>, ttl: Option<Seq<char>>) -> Result<(u128, i64), Seq<char>> {
    match outlet {
        None => Err(ISSUE_TOKEN_USAGE@),
        Some(outlet) => match uuid_value(outlet) {
            None => Err("outlet id must be a UUID"@),
            Some(outlet_id) => match ttl {
                None => Ok((outlet_id, DEFAULT_TOKEN_TTL_SECONDS)),
                Some(ttl) => match i64_value(ttl) {
                    None => Err("ttl-seconds must be a number"@),
                    Some(seconds) => Ok((outlet_id, seconds)),
                },
            },
        },
    }
}

/// The text of an optional argument.
pub open spec fn arg_text(arg: Option<&str>) -> Option<Seq<char>> {
    match arg {
        Some(text) => Some(text@),
        None => None,
    }
}

/// Read `issue-token`'s arguments.
pub fn token_request(outlet: Option<&str>, ttl: Option<&str>) -> (r: Result<(u128, i64), String>)
    ensures
        match r {
            Ok(found) => token_request_spec(arg_text(outlet), arg_text(ttl)) == Ok::<(u128, i64), Seq<char>>(found),
            Err(message) => token_request_spec(arg_text(outlet), arg_text(ttl)) == Err::<(u128, i64), Seq<char>>(message@),
        },
{
    let outlet = match outlet {
        Some(outlet) => outlet,
        None => return Err(ISSUE_TOKEN_USAGE.to_owned()),
    };
    let outlet_id = match parse_uuid(outlet) {
        Ok(id) => id,
        Err(_) => return Err("outlet id must be a UUID".to_owned()),
    };
    let seconds = match ttl {
        None => DEFAULT_TOKEN_TTL_SECONDS,
        Some(ttl) => match parse_i64(ttl) {
            Some(seconds) => seconds,
            None => return Err("ttl-seconds must be a number".to_owned()),
        },
    };
    Ok((outlet_id, seconds))
}

/// The lifetime stored with a token: the asked one where it fits the column, the default where
/// it does not.
pub fn stored_ttl_seconds(seconds: i64) -> (r: i32)
    ensures
        r == if i32::MIN <= seconds <= i32::MAX { seconds as i32 } else { DEFAULT_TOKEN_TTL_SECONDS as i32 },
{
    if i32::MIN as i64 <= seconds && seconds <= i32::MAX as i64 {
        seconds as i32
    } else {
        DEFAULT_TOKEN_TTL_SECONDS as i32
    }
}

/// What a dashboard token may read.
#[derive(Debug, Clone, Copy, PartialEq, Eq)]
pub enum TokenScope {
    /// Every outlet of the tenant.
    Tenant(u128),
    /// One outlet, whose tenant the database knows.
    Outlet(u128),
}

/// What `issue-dashboard-token` was asked for: its scope and its label without surrounding
/// whitespace.
///
/// Tenant-wide is spelled differently on purpose: a token that reads every outlet in a chain is a
/// bigger thing to hand out than one that reads a single shop, and it should not be one mistyped
/// argument away.
pub open spec fn dashboard_request_spec(scope: Option<Seq<char>>, label: Option<Seq<char>>) -> Result<(TokenScope, Seq<char>), Seq<char>> {
    match (scope, label) {
        (Some(scope), Some(label)) => if trim_chars(label).len() == 0 {
            Err("a token needs a label, so the right one can be revoked later"@)
        } else if starts_with(scope, "tenant:"@) {
            match uuid_value(scope.skip(7)) {
                Some(tenant) => Ok((TokenScope::Tenant(tenant), trim_chars(label))),
                None => Err("tenant id must be a UUID"@),
            }
        } else {
            match uuid_value(scope) {
                Some(outlet) => Ok((TokenScope::Outlet(outlet), trim_chars(label))),
                None => Err("outlet id must be a UUID"@),
            }
        },
        _ => Err(ISSUE_DASHBOARD_TOKEN_USAGE@),
    }
}

/// Read `issue-dashboard-token`'s arguments.
pub fn dashboard_request(scope: Option<&str>, label: Option<&str>) -> (r: Result<(TokenScope, String), String>)
    ensures
        match r {
            Ok((found, kept)) => dashboard_request_spec(arg_text(scope), arg_text(label))
                == Ok::<(TokenScope, Seq<char>), Seq<char>>((found, kept@)),
            Err(message) => dashboard_request_spec(arg_text(scope), arg_text(label))
                == Err::<(TokenScope, Seq<char>), Seq<char>>(message@),
        },
{
    proof {
        reveal_strlit("tenant:");
    }
    let scope = match scope {
        Some(scope) => scope,
        None => return Err(ISSUE_DASHBOARD_TOKEN_USAGE.to_owned()),
    };
    let label = match label {
        Some(label) => label,
        None => return Err(ISSUE_DASHBOARD_TOKEN_USAGE.to_owned()),
    };
    let kept = trim(label);
    if kept.is_empty() {
        return Err("a token needs a label, so the right one can be revoked later".to_owned());
    }
    match strip_prefix(scope, "tenant:") {
        Some(raw) => {
            assert(raw@ == scope@.skip(7));
            match parse_uuid(raw) {
                Ok(tenant) => Ok((TokenScope::Tenant(tenant), kept.to_owned())),
                Err(_) => Err("tenant id must be a UUID".to_owned()),
            }
        },
        None => match parse_uuid(scope) {
            Ok(outlet) => Ok((TokenScope::Outlet(outlet), kept.to_owned())),
            Err(_) => Err("outlet id must be a UUID".to_owned()),
        },
    }
}

/// A staff member's role.
#[derive(Debug, Clone, Copy, PartialEq, Eq)]
pub enum StaffRole {
    Owner,
    Manager,
    Cashier,
}

/// Quoted as `{:?}` quotes a string.
pub uninterp spec fn debug_text(text: Seq<char>) -> Seq<char>;

/// `str`'s `Debug`: the text in double quotes, with quotes and control characters escaped.
#[verifier::external_body]
fn debug_quoted(text: &str) -> (r: String)
    ensures
        r@ == debug_text(text@),
{
    format!("{text:?}")
}

/// What `add-staff` was asked for.
#[derive(Debug, Clone, PartialEq, Eq)]
pub struct StaffRequest {
    pub outlet_id: u128,
    pub role: StaffRole,
    /// The name without surrounding whitespace.
    pub name: String,
}

/// The role a word names.
pub open spec fn role_named(word: Seq<char>) -> Option<StaffRole> {
    if word == "owner"@ {
        Some(StaffRole::Owner)
    } else if word == "manager"@ {
        Some(StaffRole::Manager)
    } else if word == "cashier"@ {
        Some(StaffRole::Cashier)
    } else {
        None
    }
}

/// What `add-staff`'s arguments mean, argument by argument in order.
pub open spec fn staff_request_spec(outlet: Option<Seq<char>>, role: Option<Seq<char>>, name: Option<Seq<char>>) -> Result<(u128, StaffRole, Seq<char>), Seq<char>> {
    match outlet {
        None => Err(ADD_STAFF_USAGE@),
        Some(outlet) => match uuid_value(outlet) {
            None => Err("outlet id must be a UUID"@),
            Some(outlet_id) => match role {
                None => Err(ADD_STAFF_USAGE@),
                Some(role) => match role_named(role) {
                    None => Err("unknown role "@ + debug_text(role) + "; expected owner|manager|cashier"@),
                    Some(staff_role) => match name {
                        None => Err(ADD_STAFF_USAGE@),
                        Some(name) => if trim_chars(name).len() == 0 {
                            Err("a staff name cannot be blank"@)
                        } else {
                            Ok((outlet_id, staff_role, trim_chars(name)))
                        },
                    },
                },
            },
        },
    }
}

/// An accepted `add-staff` request is the staff member the arguments name: the role is the one
/// its word names (`owner`, `manager` or `cashier`, nothing else), the outlet is the UUID given,
/// and the name is the one given without surrounding whitespace, never blank.
pub proof fn law_a_staff_request_keeps_the_role_it_names(outlet: Option<Seq<char>>, role: Option<Seq<char>>, name: Option<Seq<char>>)
    ensures
        staff_request_spec(outlet, role, name) matches Ok((outlet_id, staff_role, kept)) ==> {
            &&& role matches Some(word) && {
                ||| word == "owner"@ && staff_role == StaffRole::Owner
                ||| word == "manager"@ && staff_role == StaffRole::Manager
                ||| word == "cashier"@ && staff_role == StaffRole::Cashier
            }
            &&& outlet matches Some(text) && uuid_value(text) == Some(outlet_id)
            &&& name matches Some(text) && kept == trim_chars(text) && kept.len() > 0
        },
        (outlet is Some && uuid_value(outlet->0) is Some && name is Some && trim_chars(name->0).len() > 0)
            ==> (role == Some("manager"@) ==> staff_request_spec(outlet, role, name) matches Ok((_, StaffRole::Manager, _)))
                && (role == Some("owner"@) ==> staff_request_spec(outlet, role, name) matches Ok((_, StaffRole::Owner, _)))
                && (role == Some("cashier"@) ==> staff_request_spec(outlet, role, name) matches Ok((_, StaffRole::Cashier, _))),
{
    reveal_strlit("owner");
    reveal_strlit("manager");
    reveal_strlit("cashier");
    assert("manager"@ != "owner"@) by { assert("manager"@.len() != "owner"@.len()); }
    assert("cashier"@ != "owner"@) by { assert("cashier"@.len() != "owner"@.len()); }
    assert("cashier"@ != "manager"@) by { assert("cashier"@[0] != "manager"@[0]); }
    assert(role_named("owner"@) == Some(StaffRole::Owner));
    assert(role_named("manager"@) == Some(StaffRole::Manager));
    assert(role_named("cashier"@) == Some(StaffRole::Cashier));
}

/// Read `add-staff`'s arguments.
pub fn staff_request(outlet: Option<&str>, role: Option<&str>, name: Option<&str>) -> (r: Result<StaffRequest, String>)
    ensures
        match r {
            Ok(request) => staff_request_spec(arg_text(outlet), arg_text(role), arg_text(name))
                == Ok::<(u128, StaffRole, Seq<char>), Seq<char>>((request.outlet_id, request.role, request.name@)),
            Err(message) => staff_request_spec(arg_text(outlet), arg_text(role), arg_text(name))
                == Err::<(u128, StaffRole, Seq<char>), Seq<char>>(message@),
        },
        r matches Ok(request) ==> role matches Some(word) && {
            ||| word@ == "owner"@ && request.role == StaffRole::Owner
            ||| word@ == "manager"@ && request.role == StaffRole::Manager
            ||| word@ == "cashier"@ && request.role == StaffRole::Cashier
        },
        r matches Ok(request) ==> outlet matches Some(text) && uuid_value(text@) == Some(request.outlet_id),
        r matches Ok(request) ==> name matches Some(text) && request.name@ == trim_chars(text@) && request.name@.len() > 0,
{
    let outlet = match outlet {
        Some(outlet) => outlet,
        None => return Err(ADD_STAFF_USAGE.to_owned()),
    };
    let outlet_id = match parse_uuid(outlet) {
        Ok(id) => id,
        Err(_) => return Err("outlet id must be a UUID".to_owned()),
    };
    let role = match role {
        Some(role) => role,
        None => return Err(ADD_STAFF_USAGE.to_owned()),
    };
    let staff_role = if str_eq(role, "owner") {
        StaffRole::Owner
    } else if str_eq(role, "manager") {
        StaffRole::Manager
    } else if str_eq(role, "cashier") {
        StaffRole::Cashier
    } else {
        let mut message = "unknown role ".to_owned();
        let quoted = debug_quoted(role);
        message.append(quoted.as_str());
        message.append("; expected owner|manager|cashier");
        return Err(message);
    };
    let name = match name {
        Some(name) => name,
        None => return Err(ADD_STAFF_USAGE.to_owned()),
    };
    let kept = trim(name);
    if kept.is_empty() {
        return Err("a staff name cannot be blank".to_owned());
    }
    Ok(StaffRequest { outlet_id, role: staff_role, name: kept.to_owned() })
}

impl StaffRole {
    /// The role as the database stores it.
    pub fn label(self) -> (r: &'static str)
        ensures
            r@ == match self {
                StaffRole::Owner => "owner"@,
                StaffRole::Manager => "manager"@,
                StaffRole::Cashier => "cashier"@,
            },
    {
        match self {
            StaffRole::Owner => "owner",
            StaffRole::Manager => "manager",
            StaffRole::Cashier => "cashier",
        }
    }

    /// The outlet a new account belongs to: an owner is tenant-wide; a manager or cashier belongs
    /// to the outlet they were created for.
    pub fn scope(self, outlet_id: u128) -> (r: Option<u128>)
        ensures
            r == if self == StaffRole::Owner { None } else { Some(outlet_id) },
    {
        match self {
            StaffRole::Owner => None,
            _ => Some(outlet_id),
        }
    }
}

} // verus!

verus! {

/// The embedded migrations the database has not applied, in the order they are embedded.
pub open spec fn unapplied(embedded: Seq<i64>, applied: Seq<i64>) -> Seq<i64>
    decreases embedded.len(),
{
    if embedded.len() == 0 {
        embedded
    } else {
        let earlier = unapplied(embedded.drop_last(), applied);
        if applied.contains(embedded.last()) { earlier } else { earlier.push(embedded.last()) }
    }
}

/// The versions of the embedded migrations that the database has not recorded as applied, in
/// the order they are embedded. The server refuses to start while any remain.
pub fn missing_migrations(embedded: &Vec<i64>, applied: &Vec<i64>) -> (r: Vec<i64>)
    ensures
        r@ == unapplied(embedded@, applied@),
{
    let mut missing: Vec<i64> = Vec::new();
    let mut i: usize = 0;
    while i < embedded.len()
        invariant
            i <= embedded.len(),
            missing@ == unapplied(embedded@.take(i as int), applied@),
        decreases embedded.len() - i,
    {
        let version = embedded[i];
        let mut seen = false;
        let mut j: usize = 0;
        while j < applied.len()
            invariant
                j <= applied.len(),
                seen <==> applied@.take(j as int).contains(version),
            decreases applied.len() - j,
        {
            if applied[j] == version {
                seen = true;
            }
            proof {
                let before = applied@.take(j as int);
                let after = applied@.take(j as int + 1);
                assert(after =~= before.push(applied@[j as int]));
                if before.contains(version) {
                    let k = choose|k: int| 0 <= k < before.len() && before[k] == version;
                    assert(after[k] == version);
                }
                if applied@[j as int] == version {
                    assert(after[j as int] == version);
                }
                if after.contains(version) {
                    let k = choose|k: int| 0 <= k < after.len() && after[k] == version;
                    if k < j {
                        assert(before[k] == version);
                    }
                }
            }
            j += 1;
        }
        proof {
            assert(applied@.take(j as int) =~= applied@);
            assert(embedded@.take(i as int + 1).drop_last() =~= embedded@.take(i as int));
            assert(embedded@.take(i as int + 1).last() == version);
        }
        if !seen {
            missing.push(version);
        }
        i += 1;
    }
    proof {
        assert(embedded@.take(i as int) =~= embedded@);
    }
    missing
}

} // verus!
