//! The server's HTTP surface, as decisions: which headers a signed request carries, who may pass,
//! what a pull asks for, and which status each outcome is answered with.
//!
//! The handlers in the application read the request and talk to the database; everything they
//! decide between those steps is here.

use vstd::prelude::*;
use crate::codec::{hex_decode, i64_value, is_hex_of, parse_i64, parse_usize, parse_uuid, usize_value, uuid_value};
use crate::codec::base64url;
use crate::device::{
    DeviceCredentials, SignedRequest, StoredToken, check_token_usable, digest_token, ed25519_point,
    ed25519_small_order, parse_public_key, token_digest, verdict, verify_request,
};
use crate::ingest::DeviceRecord;
use crate::protocol::{MAX_BATCH, PushRequest, SyncRejection};
use crate::text::{
    first_index, lemma_first_index, lemma_split_at_first, split_once, starts_with, str_eq, strip_prefix,
    trim, trim_chars,
};

verus! {

/// Header carrying the device's id.
pub const HEADER_DEVICE: &'static str = "x-sahl-device";
/// Header carrying the request timestamp, in milliseconds.
pub const HEADER_TIMESTAMP: &'static str = "x-sahl-timestamp";
/// Header carrying the hex-encoded Ed25519 signature.
pub const HEADER_SIGNATURE: &'static str = "x-sahl-signature";

pub const PUSH_PATH: &'static str = "/v1/sync/push";
pub const PULL_PATH: &'static str = "/v1/sync/pull";

/// Status of a refused authentication: one and the same for every reason.
pub const STATUS_UNAUTHORISED: u16 = 401;
/// Status of a rejection that a retry could cure.
pub const STATUS_UNAVAILABLE: u16 = 503;
/// Status of a rejection no retry will cure.
pub const STATUS_UNPROCESSABLE: u16 = 422;

/// Why a request was not authenticated.
///
/// Callers must collapse every variant into one opaque 401. Telling a client *which* check failed
/// helps an attacker enumerate; it does not help a cashier.
#[derive(Debug, Clone, Copy, PartialEq, Eq)]
pub enum AuthFailure {
    MissingHeaders,
    MalformedHeaders,
    UnknownDevice,
    Revoked,
    BadSignature,
    Unavailable,
}

/// One request header as read off the wire.
#[derive(Debug, Clone, Copy)]
pub enum HeaderField<'a> {
    /// Not sent.
    Absent,
    /// Sent, but not visible ASCII.
    Unreadable,
    Text(&'a str),
}

/// What an unusable header is refused as.
pub open spec fn field_failure(field: HeaderField<'_>) -> Option<AuthFailure> {
    match field {
        HeaderField::Absent => Some(AuthFailure::MissingHeaders),
        HeaderField::Unreadable => Some(AuthFailure::MalformedHeaders),
        HeaderField::Text(_) => None,
    }
}

/// The text of a readable header.
pub open spec fn field_text(field: HeaderField<'_>) -> Seq<char> {
    match field {
        HeaderField::Text(text) => text@,
        _ => Seq::empty(),
    }
}

/// The three signing headers, decoded.
#[derive(Debug, Clone)]
pub struct SignedHeaders {
    pub device_id: u128,
    pub timestamp_millis: i64,
    pub signature: Vec<u8>,
}

/// What reading the signing headers yields, header by header in order: the device, then the
/// timestamp, then the signature. Each header is given as what refuses it outright (if anything)
/// and its text. The signature bytes are whatever its hex spells.
pub open spec fn header_texts_verdict(
    device_failure: Option<AuthFailure>,
    device: Seq<char>,
    timestamp_failure: Option<AuthFailure>,
    timestamp: Seq<char>,
    signature_failure: Option<AuthFailure>,
    signature: Seq<char>,
) -> Result<(u128, i64), AuthFailure> {
    match device_failure {
        Some(failure) => Err(failure),
        None => if uuid_value(device) is None {
            Err(AuthFailure::MalformedHeaders)
        } else {
            match timestamp_failure {
                Some(failure) => Err(failure),
                None => if i64_value(timestamp) is None {
                    Err(AuthFailure::MalformedHeaders)
                } else {
                    match signature_failure {
                        Some(failure) => Err(failure),
                        None => if !(exists|data: Seq<u8>| #[trigger] is_hex_of(signature, data)) {
                            Err(AuthFailure::MalformedHeaders)
                        } else {
                            Ok((uuid_value(device)->0, i64_value(timestamp)->0))
                        },
                    }
                },
            }
        },
    }
}

/// What reading the signing headers off the wire yields.
pub open spec fn headers_verdict(device: HeaderField<'_>, timestamp: HeaderField<'_>, signature: HeaderField<'_>) -> Result<(u128, i64), AuthFailure> {
    header_texts_verdict(
        field_failure(device),
        field_text(device),
        field_failure(timestamp),
        field_text(timestamp),
        field_failure(signature),
        field_text(signature),
    )
}

/// Read the device, timestamp and signature headers of a signed request.
pub fn read_signed_headers(device: HeaderField<'_>, timestamp: HeaderField<'_>, signature: HeaderField<'_>) -> (r: Result<SignedHeaders, AuthFailure>)
    ensures
        match r {
            Ok(headers) => {
                &&& headers_verdict(device, timestamp, signature) == Ok::<(u128, i64), AuthFailure>((headers.device_id, headers.timestamp_millis))
                &&& is_hex_of(field_text(signature), headers.signature@)
            },
            Err(failure) => headers_verdict(device, timestamp, signature) == Err::<(u128, i64), AuthFailure>(failure),
        },
{
    let device_text = match device {
        HeaderField::Absent => return Err(AuthFailure::MissingHeaders),
        HeaderField::Unreadable => return Err(AuthFailure::MalformedHeaders),
        HeaderField::Text(text) => text,
    };
    let device_id = match parse_uuid(device_text) {
        Ok(id) => id,
        Err(_) => return Err(AuthFailure::MalformedHeaders),
    };
    let timestamp_text = match timestamp {
        HeaderField::Absent => return Err(AuthFailure::MissingHeaders),
        HeaderField::Unreadable => return Err(AuthFailure::MalformedHeaders),
        HeaderField::Text(text) => text,
    };
    let timestamp_millis = match parse_i64(timestamp_text) {
        Some(value) => value,
        None => return Err(AuthFailure::MalformedHeaders),
    };
    let signature_text = match signature {
        HeaderField::Absent => return Err(AuthFailure::MissingHeaders),
        HeaderField::Unreadable => return Err(AuthFailure::MalformedHeaders),
        HeaderField::Text(text) => text,
    };
    let signature = match hex_decode(signature_text) {
        Some(bytes) => bytes,
        None => return Err(AuthFailure::MalformedHeaders),
    };
    assert(is_hex_of(field_text(HeaderField::Text(signature_text)), signature@));
    Ok(SignedHeaders { device_id, timestamp_millis, signature })
}

/// The credentials a stored device is checked against, for a request naming `device_id`.
pub open spec fn credentials_of(device: DeviceRecord, device_id: u128) -> DeviceCredentials {
    DeviceCredentials { device_id, public_key: device.public_key, revoked: device.revoked }
}

/// Admit a signed request from a device the database returned: a revoked device is refused as
/// such, and anything the signature check refuses is a bad signature.
pub fn admit_device(
    device: &DeviceRecord,
    request: &SignedRequest<'_>,
    signature: &[u8],
    now_millis: i64,
    max_skew_seconds: i64,
) -> (r: Result<(), AuthFailure>)
    ensures
        device.revoked ==> r == Err::<(), AuthFailure>(AuthFailure::Revoked),
        !device.revoked ==> (r is Ok <==> verdict(request.payload(), request.timestamp_millis, credentials_of(*device, request.device_id), signature@, now_millis, max_skew_seconds) is Ok),
        !device.revoked && r is Err ==> r == Err::<(), AuthFailure>(AuthFailure::BadSignature),
{
    if device.revoked {
        return Err(AuthFailure::Revoked);
    }
    let credentials = DeviceCredentials {
        device_id: request.device_id,
        public_key: device.public_key,
        revoked: device.revoked,
    };
    match verify_request(request, &credentials, signature, now_millis, max_skew_seconds) {
        Ok(()) => Ok(()),
        Err(_) => Err(AuthFailure::BadSignature),
    }
}

/// How every refused authentication is answered: one status and one body, whatever the reason.
pub fn auth_refusal(failure: AuthFailure) -> (r: (u16, SyncRejection))
    ensures
        r == (STATUS_UNAUTHORISED, SyncRejection::NotAuthorised),
{
    (STATUS_UNAUTHORISED, SyncRejection::NotAuthorised)
}

/// The status a sync rejection is answered with: only a retryable rejection is a 503.
pub open spec fn status_for(rejection: SyncRejection) -> u16 {
    if rejection == SyncRejection::Unavailable { STATUS_UNAVAILABLE } else { STATUS_UNPROCESSABLE }
}

/// The status a sync rejection is answered with. It is what a client's backoff keys off.
pub fn rejection_status(rejection: SyncRejection) -> (r: u16)
    ensures
        r == status_for(rejection),
{
    if rejection.is_retryable() {
        STATUS_UNAVAILABLE
    } else {
        STATUS_UNPROCESSABLE
    }
}

/// Check a pushed batch before planning it: the signature proves who sent the bytes, and this
/// proves the bytes are about that sender — without it a device could sign a batch naming another
/// device. An oversized batch is refused too.
pub fn screen_push(device: &DeviceRecord, request: &PushRequest) -> (r: Result<(), SyncRejection>)
    ensures
        request.device_id != device.device_id ==> r == Err::<(), SyncRejection>(SyncRejection::Invalid),
        request.device_id == device.device_id && request.events@.len() > MAX_BATCH
            ==> r == Err::<(), SyncRejection>(SyncRejection::Invalid),
        r is Ok <==> request.device_id == device.device_id && request.events@.len() <= MAX_BATCH,
{
    if request.device_id != device.device_id {
        return Err(SyncRejection::Invalid);
    }
    match request.validate() {
        Ok(()) => Ok(()),
        Err(error) => Err(SyncRejection::from_sync_error(&error)),
    }
}

// ---------------------------------------------------------------------------------------------
// Query strings
// ---------------------------------------------------------------------------------------------

/// The value of one `name=value` pair if its name is `key`.
pub open spec fn pair_value(pair: Seq<char>, key: Seq<char>) -> Option<Seq<char>> {
    let at = first_index(pair, '=');
    if at < pair.len() && pair.take(at) == key {
        Some(pair.skip(at + 1))
    } else {
        None
    }
}

/// The value of the first `&`-separated pair of `query` named `key`.
pub open spec fn param_value(query: Seq<char>, key: Seq<char>) -> Option<Seq<char>>
    decreases query.len(),
{
    let at = first_index(query, '&');
    match pair_value(query.take(at), key) {
        Some(value) => Some(value),
        None => if at < query.len() {
            proof {
                lemma_first_index(query, '&');
            }
            param_value(query.skip(at + 1), key)
        } else {
            None
        },
    }
}

/// Look a parameter up by name in a query string.
pub fn param<'q>(query: &'q str, key: &str) -> (r: Option<&'q str>)
    ensures
        match r {
            Some(value) => param_value(query@, key@) == Some(value@),
            None => param_value(query@, key@) is None,
        },
{
    let mut rest = query;
    loop
        invariant
            param_value(rest@, key@) == param_value(query@, key@),
        decreases rest@.len(),
    {
        let ghost before = rest@;
        proof {
            lemma_first_index(rest@, '&');
        }
        let (pair, tail, more) = match split_once(rest, '&') {
            Some((pair, tail)) => {
                proof {
                    lemma_split_at_first(before, '&', pair@, tail@);
                }
                (pair, tail, true)
            },
            None => {
                assert(before.take(first_index(before, '&')) == before);
                (rest, rest, false)
            },
        };
        assert(pair@ == before.take(first_index(before, '&')));
        match split_once(pair, '=') {
            Some((name, value)) => {
                proof {
                    lemma_split_at_first(pair@, '=', name@, value@);
                }
                if str_eq(name, key) {
                    return Some(value);
                }
            },
            None => {
                proof {
                    lemma_first_index(pair@, '=');
                }
            },
        }
        assert(pair_value(pair@, key@) is None);
        if !more {
            return None;
        }
        rest = tail;
    }
}

/// Where a pull resumes when the query does not say, or says something unreadable.
pub const DEFAULT_CURSOR: i64 = 0;
/// How many events a pull returns when the query does not say.
pub const DEFAULT_PULL_LIMIT: usize = 200;
/// The most events a pull ever returns, whatever the query asks.
pub const MAX_PULL_LIMIT: usize = 500;

/// What a pull's query asks for.
#[derive(Debug, Clone, Copy, PartialEq, Eq)]
pub struct PullQuery {
    pub cursor: i64,
    pub limit: usize,
}

/// The cursor a pull's query asks for: its `cursor` read as an `i64`, or zero when that is absent
/// or unreadable.
pub open spec fn cursor_of(query: Seq<char>) -> i64 {
    match param_value(query, "cursor"@) {
        Some(text) => match i64_value(text) {
            Some(cursor) => cursor,
            None => DEFAULT_CURSOR,
        },
        None => DEFAULT_CURSOR,
    }
}

/// The limit a pull's query asks for: its `limit` read as a `usize`, the default when that is
/// absent or unreadable, and never more than the maximum.
pub open spec fn limit_of(query: Seq<char>) -> usize {
    let asked = match param_value(query, "limit"@) {
        Some(text) => match usize_value(text) {
            Some(limit) => limit,
            None => DEFAULT_PULL_LIMIT,
        },
        None => DEFAULT_PULL_LIMIT,
    };
    if asked < MAX_PULL_LIMIT { asked } else { MAX_PULL_LIMIT }
}

/// Read a pull's cursor and limit from its query string.
pub fn pull_query(query: &str) -> (r: PullQuery)
    ensures
        r.cursor == cursor_of(query@),
        r.limit == limit_of(query@),
        r.limit <= MAX_PULL_LIMIT,
{
    let cursor = match param(query, "cursor") {
        Some(text) => match parse_i64(text) {
            Some(cursor) => cursor,
            None => DEFAULT_CURSOR,
        },
        None => DEFAULT_CURSOR,
    };
    let asked = match param(query, "limit") {
        Some(text) => match parse_usize(text) {
            Some(limit) => limit,
            None => DEFAULT_PULL_LIMIT,
        },
        None => DEFAULT_PULL_LIMIT,
    };
    let limit = if asked < MAX_PULL_LIMIT { asked } else { MAX_PULL_LIMIT };
    PullQuery { cursor, limit }
}

// ---------------------------------------------------------------------------------------------
// Enrollment
// ---------------------------------------------------------------------------------------------

pub const ENROLL_PATH: &'static str = "/v1/devices/enroll";

/// Status of a device enrolled.
pub const STATUS_CREATED: u16 = 201;
/// Status of an enrollment refused, whatever the reason.
pub const STATUS_FORBIDDEN: u16 = 403;

/// What a terminal sends to enrol.
#[derive(Debug, Clone)]
pub struct EnrollRequest {
    /// The plaintext token, as typed or scanned by the operator.
    pub token: String,
    /// Base64url Ed25519 public key. The private half never leaves the terminal.
    pub public_key: String,
    /// What the shop calls this till.
    pub label: String,
}

/// What an enrolled terminal is told.
#[derive(Debug, Clone, Copy, PartialEq, Eq)]
pub struct EnrollResponse {
    pub device_id: u128,
    pub tenant_id: u128,
    pub outlet_id: u128,
}

/// Enrollment never explains itself.
///
/// A single opaque failure for every case — bad token, expired, already used, malformed key. Naming
/// the reason would let someone probe which tokens exist, and an operator holding a genuine token
/// gets no benefit from the distinction.
#[derive(Debug, Clone, Copy)]
pub struct EnrollRefused {
    pub error: &'static str,
}

/// The one body every refused enrollment carries.
pub fn enroll_refused() -> (r: EnrollRefused)
    ensures
        r.error@ == "enrollment_refused"@,
{
    EnrollRefused { error: "enrollment_refused" }
}

/// Whether some 32-byte Ed25519 key of large order is what `encoded` spells in base64url, once
/// surrounding whitespace is dropped.
pub open spec fn acceptable_key(encoded: Seq<char>) -> bool {
    exists|key: Seq<u8>|
        key.len() == 32 && #[trigger] base64url(key) == trim_chars(encoded) && ed25519_point(key) && !ed25519_small_order(key)
}

/// An enrollment that passed every check that needs no database.
#[derive(Debug, Clone)]
pub struct EnrollApplication {
    pub public_key: [u8; 32],
    /// The label without surrounding whitespace, as it will be stored.
    pub label: String,
    /// The digest the token is looked up by.
    pub digest: [u8; 32],
}

/// Check an enrollment before looking its token up: the key must be a usable Ed25519 key and
/// the label must hold something besides whitespace.
pub fn screen_enrollment(request: &EnrollRequest) -> (r: Option<EnrollApplication>)
    ensures
        r is Some <==> acceptable_key(request.public_key@) && trim_chars(request.label@).len() > 0,
        r matches Some(application) ==> {
            &&& base64url(application.public_key@) == trim_chars(request.public_key@)
            &&& ed25519_point(application.public_key@)
            &&& !ed25519_small_order(application.public_key@)
            &&& application.label@ == trim_chars(request.label@)
            &&& application.digest@ == token_digest(request.token@)
        },
{
    let public_key = match parse_public_key(request.public_key.as_str()) {
        Ok(key) => key,
        Err(_) => return None,
    };
    let label = trim(request.label.as_str());
    if label.is_empty() {
        return None;
    }
    let digest = digest_token(request.token.as_str());
    Some(EnrollApplication { public_key, label: label.to_owned(), digest })
}

/// A stored enrollment token, as its lookup returns it.
#[derive(Debug, Clone, Copy, PartialEq, Eq)]
pub struct TokenRow {
    pub token_id: u128,
    pub tenant_id: u128,
    pub outlet_id: u128,
    pub expires_at_millis: i64,
    pub consumed: bool,
}

/// Whether a looked-up token may be redeemed now: one was found, it is unused, and it has not
/// expired.
pub fn redeemable(row: Option<TokenRow>, now_millis: i64) -> (r: Option<TokenRow>)
    ensures
        r == match row {
            Some(token) => if !token.consumed && now_millis < token.expires_at_millis { Some(token) } else { None },
            None => None,
        },
{
    let token = match row {
        Some(token) => token,
        None => return None,
    };
    let stored = StoredToken { expires_at_millis: token.expires_at_millis, consumed: token.consumed };
    match check_token_usable(&stored, now_millis) {
        Ok(()) => Some(token),
        Err(_) => None,
    }
}

/// Whether the conditional consumption of a token was this request's: two terminals redeeming
/// one token at once both pass [`redeemable`], and only the one whose update touched the row wins.
pub fn won_token(rows_affected: u64) -> (r: bool)
    ensures
        r == (rows_affected == 1),
{
    rows_affected == 1
}

// ---------------------------------------------------------------------------------------------
// Owner reports
// ---------------------------------------------------------------------------------------------

pub const DAY_PATH: &'static str = "/api/report/day";
pub const OUTLETS_PATH: &'static str = "/api/outlets";

/// Status of a report asking for an outlet its token may not read.
pub const STATUS_FORBIDDEN_OUTLET: u16 = 403;
/// Status of a report that does not say which outlet, from a tenant-wide token.
pub const STATUS_BAD_REQUEST: u16 = 400;

/// The token an `authorization` header presents, if it is a bearer token.
pub fn bearer_token<'a>(authorization: HeaderField<'a>) -> (r: Option<&'a str>)
    ensures
        match authorization {
            HeaderField::Text(text) => match r {
                Some(token) => text@ == "Bearer "@ + token@,
                None => !starts_with(text@, "Bearer "@),
            },
            _ => r is None,
        },
{
    match authorization {
        HeaderField::Text(text) => strip_prefix(text, "Bearer "),
        _ => None,
    }
}

/// Whether a dashboard token's row admits a reader: only a row that says it is not revoked. A
/// row whose flag cannot be read counts as revoked.
pub fn reader_admitted(revoked: Option<bool>) -> (r: bool)
    ensures
        r == (revoked == Some(false)),
{
    match revoked {
        Some(flag) => !flag,
        None => false,
    }
}

/// Whether a reader scoped to `scope` (every outlet when `None`) may see outlet `outlet_id`.
pub fn outlet_visible(scope: Option<u128>, outlet_id: u128) -> (r: bool)
    ensures
        r == match scope {
            Some(only) => only == outlet_id,
            None => true,
        },
{
    match scope {
        Some(only) => only == outlet_id,
        None => true,
    }
}

/// What a day report asks for.
#[derive(Debug, Clone, Copy, PartialEq, Eq)]
pub struct DayQuery {
    /// Which outlet. Required when the token is tenant-wide.
    pub outlet: Option<u128>,
    /// Business day bounds in milliseconds, chosen by the caller because only it knows the
    /// outlet's timezone and when the shop considers a day to have started.
    pub from: Option<i64>,
    pub to: Option<i64>,
}

/// The outlet and window a day report covers.
#[derive(Debug, Clone, Copy, PartialEq, Eq)]
pub struct DayWindow {
    pub outlet: u128,
    pub from: i64,
    pub to: i64,
}

/// Decide which outlet and window a day report covers. A token scoped to one outlet only ever
/// reads that one, whatever it asks for; a tenant-wide token must name one. Missing bounds are
/// open.
pub fn day_window(scope: Option<u128>, query: &DayQuery) -> (r: Result<DayWindow, u16>)
    ensures
        match (scope, query.outlet) {
            (Some(only), Some(asked)) if only != asked => r == Err::<DayWindow, u16>(STATUS_FORBIDDEN_OUTLET),
            (None, None) => r == Err::<DayWindow, u16>(STATUS_BAD_REQUEST),
            _ => r is Ok,
        },
        r matches Ok(window) ==> {
            &&& window.outlet == match scope { Some(only) => only, None => query.outlet->0 }
            &&& window.from == match query.from { Some(from) => from, None => i64::MIN }
            &&& window.to == match query.to { Some(to) => to, None => i64::MAX }
        },
{
    let outlet = match (scope, query.outlet) {
        (Some(only), Some(asked)) => {
            if only != asked {
                return Err(STATUS_FORBIDDEN_OUTLET);
            }
            only
        },
        (Some(only), None) => only,
        (None, Some(asked)) => asked,
        (None, None) => return Err(STATUS_BAD_REQUEST),
    };
    let from = match query.from {
        Some(from) => from,
        None => i64::MIN,
    };
    let to = match query.to {
        Some(to) => to,
        None => i64::MAX,
    };
    Ok(DayWindow { outlet, from, to })
}

} // verus!
