//! Stateless request handlers of the IDE protocol.

use vstd::prelude::*;
use crate::error::AmpError;
use crate::json::{is_member, is_str_member, json_str, member, member_of, Json};

verus! {

/// Whether every character of `s` is a decimal digit.
pub open spec fn is_digits(s: Seq<char>) -> bool {
    forall|i: int| 0 <= i < s.len() ==> '0' <= #[trigger] s[i] <= '9'
}

/// A year as RFC 3339 text: four digits, or, outside 0 to 9999, a sign
/// followed by at least four digits.
pub open spec fn is_year_text(y: Seq<char>) -> bool {
    (y.len() == 4 && is_digits(y)) || (y.len() >= 5 && (y[0] == '+' || y[0] == '-') && is_digits(
        y.drop_first(),
    ))
}

/// `-MM-DDThh:mm:ss`: month, day, hour, minute and second, two digits each.
pub open spec fn is_date_time_text(t: Seq<char>) -> bool {
    &&& t.len() == 15
    &&& t[0] == '-' && t[3] == '-' && t[6] == 'T' && t[9] == ':' && t[12] == ':'
    &&& is_digits(t.subrange(1, 3)) && is_digits(t.subrange(4, 6))
    &&& is_digits(t.subrange(7, 9)) && is_digits(t.subrange(10, 12))
    &&& is_digits(t.subrange(13, 15))
}

/// A fraction of a second: nothing, or `.` and 3, 6 or 9 digits.
pub open spec fn is_fraction_text(f: Seq<char>) -> bool {
    f.len() == 0 || ((f.len() == 4 || f.len() == 7 || f.len() == 10) && f[0] == '.' && is_digits(
        f.drop_first(),
    ))
}

/// Whether `s` is an RFC 3339 time in UTC whose fraction of a second has
/// `k` characters: year, `-MM-DDThh:mm:ss`, the fraction, then `+00:00`.
pub open spec fn is_rfc3339_utc_with_fraction(s: Seq<char>, k: int) -> bool {
    let y = s.len() - 21 - k;
    &&& y >= 4
    &&& is_year_text(s.subrange(0, y))
    &&& is_date_time_text(s.subrange(y, y + 15))
    &&& is_fraction_text(s.subrange(y + 15, y + 15 + k))
    &&& s.subrange(s.len() - 6, s.len() as int) == seq!['+', '0', '0', ':', '0', '0']
}

/// Whether `s` is an RFC 3339 time in UTC in the form chrono writes it,
/// such as `2024-01-01T12:00:00.123+00:00`.
pub open spec fn is_rfc3339_utc(s: Seq<char>) -> bool {
    is_rfc3339_utc_with_fraction(s, 0) || is_rfc3339_utc_with_fraction(s, 4)
        || is_rfc3339_utc_with_fraction(s, 7) || is_rfc3339_utc_with_fraction(s, 10)
}

/// Relies on chrono's `From<SystemTime> for DateTime<Utc>` and
/// `DateTime::to_rfc3339`: the system clock's current time as RFC 3339
/// text with offset `+00:00`. A clock before 1970 is handled; which time it
/// is, nothing says.
#[verifier::external_body]
fn now_rfc3339() -> (r: String)
    ensures
        is_rfc3339_utc(r@),
{
    chrono::DateTime::<chrono::Utc>::from(std::time::SystemTime::now()).to_rfc3339()
}

/// Whether `r` is the echo of `m`: an object whose only member is
/// `message` with value `m`.
pub open spec fn is_echo(r: Json, m: Json) -> bool {
    r matches Json::Object(f) && f@.len() == 1 && is_member(f@[0], "message"@, m)
}

/// Whether `r` is a pong: an object with `pong: true` and then `ts`, a
/// string.
pub open spec fn is_pong(r: Json) -> bool {
    r matches Json::Object(f) && f@.len() == 2 && is_member(f@[0], "pong"@, Json::Bool(true)) && (
    f@[1].0@ == "ts"@ && f@[1].1 is Str)
}

/// The answer to a ping with parameters `params`, taken at time `ts`: the
/// echo of the `message` member when `params` has one, else a pong that
/// carries `ts`.
pub fn ping_response(params: Json, ts: String) -> (r: Json)
    ensures
        member(params, "message"@) matches Some(m) ==> is_echo(r, m),
        member(params, "message"@) is None ==> is_pong(r),
        member(params, "message"@) is None ==> (r matches Json::Object(f) && is_str_member(
            f@[1],
            "ts"@,
            ts@,
        )),
{
    match params.take_member("message") {
        Some(m) => {
            let mut f: Vec<(String, Json)> = Vec::new();
            f.push(member_of("message", m));
            Json::Object(f)
        },
        None => {
            let mut f: Vec<(String, Json)> = Vec::new();
            f.push(member_of("pong", Json::Bool(true)));
            f.push(member_of("ts", json_str(ts)));
            Json::Object(f)
        },
    }
}

/// Health check: echoes the `message` member of `params` when there is
/// one, and otherwise answers `pong: true` with the current time as
/// RFC 3339 text in UTC under `ts`. It always succeeds.
pub fn ping(params: Json) -> (r: Result<Json, AmpError>)
    ensures
        r is Ok,
        r matches Ok(v) ==> (member(params, "message"@) matches Some(m) ==> is_echo(v, m)),
        r matches Ok(v) ==> (member(params, "message"@) is None ==> is_pong(v)),
        member(params, "message"@) is None ==> (r matches Ok(Json::Object(f)) && (f@[1].1 matches Json::Str(t)
            && is_rfc3339_utc(t@))),
{
    let ts = now_rfc3339();
    Ok(ping_response(params, ts))
}

/// Authentication handshake: acknowledges the connection whatever the
/// parameters, with `authenticated: true`.
pub fn authenticate(_params: Json) -> (r: Result<Json, AmpError>)
    ensures
        r matches Ok(Json::Object(f)) && f@.len() == 1 && is_member(
            f@[0],
            "authenticated"@,
            Json::Bool(true),
        ),
{
    let mut f: Vec<(String, Json)> = Vec::new();
    f.push(member_of("authenticated", Json::Bool(true)));
    Ok(Json::Object(f))
}

} // verus!
