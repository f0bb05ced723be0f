//! The till's side of the wire: where it sends, what it asks a pull for, and how it reads a
//! refusal.
//!
//! The HTTP client lives in the application; it asks these functions what to send and hands back
//! what came.

use vstd::prelude::*;
use crate::codec::{decimal_chars, lemma_decimal_reads_back, decimal_digits, decimal_text, i64_string, i64_value, usize_string, usize_value};
use crate::keys::base_url;
use crate::protocol::SyncRejection;
use crate::routes::{
    MAX_PULL_LIMIT, PULL_PATH, PUSH_PATH, STATUS_UNAUTHORISED, cursor_of, limit_of, pair_value, param_value,
    status_for,
};
use crate::text::{first_index, lemma_first_index, lemma_split_at_first, trim_end_char};

verus! {

/// Where a till pushes.
pub fn push_url(base: &str) -> (r: String)
    ensures
        r@ == trim_end_char(base@, '/') + PUSH_PATH@,
{
    let mut url = base_url(base);
    url.append(PUSH_PATH);
    url
}

/// The query a pull is sent with.
pub open spec fn pull_query_text(cursor: i64, limit: usize) -> Seq<char> {
    "cursor="@ + decimal_chars(cursor as int) + "&limit="@ + decimal_chars(limit as int)
}

proof fn lemma_decimal_digits_plain(n: nat)
    ensures
        forall|i: int| 0 <= i < decimal_digits(n).len() ==> 48 <= #[trigger] decimal_digits(n)[i] <= 57,
    decreases n,
{
    if n >= 10 {
        lemma_decimal_digits_plain(n / 10);
        assert forall|i: int| 0 <= i < decimal_digits(n).len() implies 48 <= #[trigger] decimal_digits(n)[i] <= 57 by {
            if i < decimal_digits(n / 10).len() {
                assert(decimal_digits(n)[i] == decimal_digits(n / 10)[i]);
            }
        }
    }
}

/// A number's decimal text holds neither `&` nor `=`.
proof fn lemma_decimal_is_plain(n: int)
    ensures
        !decimal_chars(n).contains('&'),
        !decimal_chars(n).contains('='),
{
    let digits = if n < 0 { decimal_digits((-n) as nat) } else { decimal_digits(n as nat) };
    lemma_decimal_digits_plain(if n < 0 { (-n) as nat } else { n as nat });
    assert forall|i: int| 0 <= i < decimal_text(n).len() implies #[trigger] decimal_text(n)[i] == 45 || 48 <= decimal_text(n)[i] <= 57 by {
        if n < 0 {
            if i > 0 {
                assert(decimal_text(n)[i] == digits[i - 1]);
            }
        }
    }
    if decimal_chars(n).contains('&') {
        let i = choose|i: int| 0 <= i < decimal_chars(n).len() && decimal_chars(n)[i] == '&';
        assert(decimal_text(n)[i] == 45 || 48 <= decimal_text(n)[i] <= 57);
    }
    if decimal_chars(n).contains('=') {
        let i = choose|i: int| 0 <= i < decimal_chars(n).len() && decimal_chars(n)[i] == '=';
        assert(decimal_text(n)[i] == 45 || 48 <= decimal_text(n)[i] <= 57);
    }
}

/// The server reads back exactly the cursor a till asks for, and the limit it asks for up to the
/// server's maximum.
proof fn lemma_pull_query_reads_back(cursor: i64, limit: usize)
    requires
        i64_value(decimal_chars(cursor as int)) == Some(cursor),
        usize_value(decimal_chars(limit as int)) == Some(limit),
    ensures
        cursor_of(pull_query_text(cursor, limit)) == cursor,
        limit_of(pull_query_text(cursor, limit)) == if limit < MAX_PULL_LIMIT { limit } else { MAX_PULL_LIMIT },
{
    reveal_strlit("cursor=");
    reveal_strlit("&limit=");
    reveal_strlit("cursor");
    reveal_strlit("limit");
    let c = decimal_chars(cursor as int);
    let l = decimal_chars(limit as int);
    lemma_decimal_is_plain(cursor as int);
    lemma_decimal_is_plain(limit as int);
    let query = pull_query_text(cursor, limit);
    let first = "cursor="@ + c;
    let rest = "limit="@ + l;
    reveal_strlit("limit=");
    assert("&limit="@ == seq!['&'] + "limit="@);
    assert(query == first + seq!['&'] + rest);
    assert(!first.contains('&')) by {
        if first.contains('&') {
            let i = choose|i: int| 0 <= i < first.len() && first[i] == '&';
            if i >= 7 {
                assert(c[i - 7] == '&');
            }
        }
    }
    lemma_split_at_first(query, '&', first, rest);
    assert("cursor="@ == "cursor"@ + seq!['=']);
    assert(first == "cursor"@ + seq!['='] + c);
    lemma_split_at_first(first, '=', "cursor"@, c);
    assert(pair_value(first, "cursor"@) == Some(c));
    assert(param_value(query, "cursor"@) == Some(c));

    assert(pair_value(first, "limit"@) is None);
    assert(!rest.contains('&')) by {
        if rest.contains('&') {
            let i = choose|i: int| 0 <= i < rest.len() && rest[i] == '&';
            if i >= 6 {
                assert(l[i - 6] == '&');
            }
        }
    }
    lemma_first_index(rest, '&');
    assert(rest.take(first_index(rest, '&')) == rest);
    assert("limit="@ == "limit"@ + seq!['=']);
    assert(rest == "limit"@ + seq!['='] + l);
    lemma_split_at_first(rest, '=', "limit"@, l);
    assert(pair_value(rest, "limit"@) == Some(l));
    assert(param_value(rest, "limit"@) == Some(l));
    assert(param_value(query, "limit"@) == Some(l));
}

/// The query a pull asks with. The server reads back exactly this cursor, and this limit up to
/// its maximum.
pub fn pull_query_string(cursor: i64, limit: usize) -> (r: String)
    ensures
        r@ == pull_query_text(cursor, limit),
        cursor_of(r@) == cursor,
        limit_of(r@) == if limit < MAX_PULL_LIMIT { limit } else { MAX_PULL_LIMIT },
{
    let mut query = "cursor=".to_owned();
    let cursor_text = i64_string(cursor);
    query.append(cursor_text.as_str());
    query.append("&limit=");
    let limit_text = usize_string(limit);
    query.append(limit_text.as_str());
    proof {
        lemma_decimal_reads_back(cursor as int);
        lemma_decimal_reads_back(limit as int);
        lemma_pull_query_reads_back(cursor, limit);
    }
    query
}

/// The path a pull is sent to, query included. The query is part of the signed path, so it is
/// built once and signed and sent exactly as built.
pub fn pull_path(cursor: i64, limit: usize) -> (r: String)
    ensures
        r@ == PULL_PATH@ + "?"@ + pull_query_text(cursor, limit),
{
    let mut path = PULL_PATH.to_owned();
    path.append("?");
    let query = pull_query_string(cursor, limit);
    path.append(query.as_str());
    path
}

/// Where a pull with this path goes.
pub fn pull_url(base: &str, path: &str) -> (r: String)
    ensures
        r@ == trim_end_char(base@, '/') + path@,
{
    let mut url = base_url(base);
    url.append(path);
    url
}

/// How a till reads a refused response, given its status and the rejection its body names, if
/// it could read one.
pub open spec fn refusal_reading(status: u16, named: Option<SyncRejection>) -> SyncRejection {
    if status == STATUS_UNAUTHORISED {
        SyncRejection::NotAuthorised
    } else if 500 <= status <= 599 {
        SyncRejection::Unavailable
    } else {
        match named {
            Some(rejection) => rejection,
            None => SyncRejection::Invalid,
        }
    }
}

/// Read a refused response. The status carries the retry decision — a server error means try
/// again — so it is read before the body; an unexplained refusal is not retried.
pub fn read_refusal(status: u16, named: Option<SyncRejection>) -> (r: SyncRejection)
    ensures
        r == refusal_reading(status, named),
        status == 401 ==> r == SyncRejection::NotAuthorised,
        500 <= status <= 599 ==> r == SyncRejection::Unavailable,
        status != 401 && !(500 <= status <= 599) ==> r == match named {
            Some(rejection) => rejection,
            None => SyncRejection::Invalid,
        },
{
    if status == STATUS_UNAUTHORISED {
        return SyncRejection::NotAuthorised;
    }
    if 500 <= status && status <= 599 {
        return SyncRejection::Unavailable;
    }
    match named {
        Some(rejection) => rejection,
        None => SyncRejection::Invalid,
    }
}

/// Whether a status is a success.
pub fn is_success(status: u16) -> (r: bool)
    ensures
        r == (200 <= status <= 299),
{
    200 <= status && status <= 299
}

/// A refusal is read by its status first: 401 is not authorised whatever the body says, every
/// server error (500 to 599) is a passing outage to retry whatever the body says, and any other
/// refusal is what its body names, or invalid when the body names nothing.
pub proof fn law_a_refusal_is_read_by_its_status_first(status: u16, named: Option<SyncRejection>)
    ensures
        status == 401 ==> refusal_reading(status, named) == SyncRejection::NotAuthorised,
        500 <= status <= 599 ==> refusal_reading(status, named) == SyncRejection::Unavailable,
        status != 401 && !(500 <= status <= 599) && named is Some ==> refusal_reading(status, named) == named->0,
        status != 401 && !(500 <= status <= 599) && named is None ==> refusal_reading(status, named) == SyncRejection::Invalid,
        refusal_reading(status, named) == SyncRejection::Unavailable
            ==> 500 <= status <= 599 || named == Some(SyncRejection::Unavailable),
{
}

/// What the server answers, the till understands: a rejection sent with its status is read back
/// as that rejection, and every refused authentication as not authorised.
pub proof fn law_the_till_reads_the_rejection_the_server_sends(rejection: SyncRejection, named: Option<SyncRejection>)
    ensures
        refusal_reading(status_for(rejection), Some(rejection)) == rejection,
        refusal_reading(STATUS_UNAUTHORISED, named) == SyncRejection::NotAuthorised,
{
}

} // verus!
