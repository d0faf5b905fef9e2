use vstd::prelude::*;
use vstd::string::StringExecFns;
use crate::errors::text_opt;

verus! {

/// Seconds in a day.
pub const SECS_PER_DAY: i64 = 86400;
/// How long an issued login token and its cookie stay valid, in days.
pub const TOKEN_DAYS: i64 = 7;
/// The `strftime` pattern of the `Expires` attribute of a cookie.
pub const COOKIE_DATE_PATTERN: &'static str = "%a, %d %b %Y %H:%M:%S GMT";

/// The earliest whole second that `chrono` represents in UTC
/// (`DateTime::<Utc>::MIN_UTC.timestamp()`).
pub const MIN_TIMESTAMP: i64 = -8334601228800;
/// The latest whole second that `chrono` represents in UTC
/// (`DateTime::<Utc>::MAX_UTC.timestamp()`).
pub const MAX_TIMESTAMP: i64 = 8210266876799;
/// The largest number of days that `TimeDelta::try_days` accepts
/// (`TimeDelta::MAX` is `i64::MAX` milliseconds).
pub const MAX_SPAN_DAYS: i64 = 106751991167;

/// Whether `now` is an instant chrono represents, `days` a span it accepts,
/// and their sum again an instant it represents.
pub open spec fn span_in_range(now: i64, days: i64) -> bool {
    &&& MIN_TIMESTAMP <= now <= MAX_TIMESTAMP
    &&& -MAX_SPAN_DAYS <= days <= MAX_SPAN_DAYS
    &&& MIN_TIMESTAMP <= now + days * SECS_PER_DAY <= MAX_TIMESTAMP
}

/// What `chrono` gives for the UTC instant `now` (Unix seconds) plus `days`
/// days, in Unix seconds: `None` where the span or the sum is out of its range.
pub uninterp spec fn days_later(now: i64, days: i64) -> Option<i64>;

/// `DateTime::checked_add_signed` of `TimeDelta::try_days(days)` to the instant
/// `now` (built by `DateTime::from_timestamp`), read back by `timestamp`. Its
/// result is named; chrono documents a span of days as that many times
/// 86 400 seconds, so a sum it returns is `now + days * 86400`, and it
/// succeeds where instant, span and sum are in its documented range.
#[verifier::external_body]
fn add_days(now: i64, days: i64) -> (r: Option<i64>)
    ensures
        r == days_later(now, days),
        r matches Some(t) ==> t == now + days * SECS_PER_DAY,
        span_in_range(now, days) ==> r is Some,
{
    let span = chrono::TimeDelta::try_days(days)?;
    chrono::DateTime::from_timestamp(now, 0)?.checked_add_signed(span).map(|t| t.timestamp())
}

/// The claims of a login token.
#[derive(Debug)]
pub struct Claims {
    pub user_id: String,
    pub email: String,
    pub role: String,
    pub exp: usize,
}

impl Claims {
    /// The claims of a token issued at `now` (Unix seconds) that expires
    /// `days` days later; `exp` is that instant's timestamp cast to `usize`.
    /// `None` where chrono cannot add the span.
    pub fn expiring(user_id: String, email: String, role: String, now: i64, days: i64) -> (r: Option<Claims>)
        ensures
            r is None <==> days_later(now, days) is None,
            span_in_range(now, days) ==> r is Some,
            r matches Some(c) ==> c.user_id == user_id && c.email == email && c.role == role
                && c.exp == days_later(now, days).unwrap() as usize
                && c.exp == (now + days * SECS_PER_DAY) as usize,
    {
        match add_days(now, days) {
            None => None,
            Some(at) => Some(Claims { user_id, email, role, exp: at as usize }),
        }
    }
}

/// The text that `chrono` writes for the UTC instant `ts` (Unix seconds) with a
/// `strftime` pattern; `None` where the instant is out of its range.
pub uninterp spec fn utc_text(ts: i64, pattern: Seq<char>) -> Option<Seq<char>>;

/// `chrono`'s formatting of the UTC instant at `ts` seconds
/// (`DateTime::from_timestamp(ts, 0)`, then `format(pattern).to_string()`).
/// Its text is named; an instant in chrono's documented range is written.
/// The formatting panics on a malformed pattern, so `requires` admits the
/// cookie pattern alone.
#[verifier::external_body]
fn format_utc(ts: i64, pattern: &str) -> (r: Option<String>)
    requires
        pattern@ == COOKIE_DATE_PATTERN@,
    ensures
        text_opt(r) == utc_text(ts, pattern@),
        MIN_TIMESTAMP <= ts <= MAX_TIMESTAMP ==> r is Some,
{
    chrono::DateTime::from_timestamp(ts, 0).map(|d| d.format(pattern).to_string())
}

/// The cookie that carries a login token.
#[derive(Debug)]
pub struct TokenCookie {
    pub name: String,
    pub value: String,
    pub path: String,
    pub http_only: bool,
    pub secure: bool,
    pub expires: String,
}

/// Whether `expires` is the text of the instant `days` days after `now`.
pub open spec fn expires_after(now: i64, days: i64, expires: Seq<char>) -> bool {
    &&& days_later(now, days) matches Some(t)
    &&& utc_text(t, COOKIE_DATE_PATTERN@) == Some(expires)
}

/// The cookie named `name` holding `token`, for the whole site, hidden from
/// scripts, sent over HTTPS only, and expiring `days` days after `now`.
/// `None` where chrono cannot add the span or write the instant.
pub fn token_cookie(token: String, name: String, now: i64, days: i64) -> (r: Option<TokenCookie>)
    ensures
        r is None <==> (days_later(now, days) matches Some(t) ==> utc_text(t, COOKIE_DATE_PATTERN@) is None),
        span_in_range(now, days) ==> r is Some,
        r matches Some(c) ==> c.name == name && c.value == token && c.path@ == "/"@ && c.http_only && c.secure
            && expires_after(now, days, c.expires@),
        r matches Some(c) ==> days_later(now, days) == Some((now + days * SECS_PER_DAY) as i64)
            && utc_text((now + days * SECS_PER_DAY) as i64, COOKIE_DATE_PATTERN@) == Some(c.expires@),
{
    let at = match add_days(now, days) {
        None => {
            return None;
        },
        Some(at) => at,
    };
    match format_utc(at, COOKIE_DATE_PATTERN) {
        None => None,
        Some(expires) => Some(TokenCookie {
            name,
            value: token,
            path: String::from_str("/"),
            http_only: true,
            secure: true,
            expires,
        }),
    }
}

} // verus!
