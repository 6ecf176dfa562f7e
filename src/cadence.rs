use vstd::prelude::*;

verus! {

/// Validity window assumed when the upstream's headers do not give one, in seconds.
pub const DEFAULT_TTL_SECS: i64 = 10;

/// Wait added after the validity window before the next poll, in seconds.
pub const POLL_GRACE_SECS: i64 = 1;

/// Wait after a failed poll before the next try, in seconds.
pub const RETRY_DELAY_SECS: u64 = 10;

/// Interval between refreshes of the guild directory, in seconds.
pub const GUILD_REFRESH_SECS: u64 = 3600;

/// Interval between refreshes of the territory enrichment, in seconds.
pub const EXTRA_REFRESH_SECS: u64 = 60;

/// Names the Unix time, in seconds, that `chrono::DateTime::parse_from_rfc2822`
/// reads from a text, or `None` where it refuses the text.
pub uninterp spec fn rfc2822_seconds(s: Seq<char>) -> Option<i64>;

/// Relies on `chrono::DateTime::parse_from_rfc2822` and `DateTime::timestamp`:
/// the instant that an RFC 2822 date text denotes, which depends on the text alone.
#[verifier::external_body]
fn parse_rfc2822(s: &str) -> (r: Option<i64>)
    ensures
        r == rfc2822_seconds(s@),
{
    chrono::DateTime::parse_from_rfc2822(s).ok().map(|d| d.timestamp())
}

/// The instant that an HTTP date header gives, where it is present and readable.
pub open spec fn header_instant(h: Option<String>) -> Option<i64> {
    match h {
        Some(s) => rfc2822_seconds(s@),
        None => None,
    }
}

/// The validity window of a response: `Expires` minus `Date`, where both are
/// known, else the default.
pub open spec fn ttl_of(date: Option<i64>, expires: Option<i64>) -> int {
    match (date, expires) {
        (Some(d), Some(e)) => e - d,
        _ => DEFAULT_TTL_SECS as int,
    }
}

/// The validity window, in seconds, from the instants of the `Date` and
/// `Expires` headers.
pub fn ttl_from_instants(date: Option<i64>, expires: Option<i64>) -> (r: i128)
    ensures
        r == ttl_of(date, expires),
        -(u64::MAX as int) <= r <= u64::MAX,
{
    match (date, expires) {
        (Some(d), Some(e)) => e as i128 - d as i128,
        _ => DEFAULT_TTL_SECS as i128,
    }
}

/// Reads an HTTP date header.
pub fn read_date_header(h: &Option<String>) -> (r: Option<i64>)
    ensures
        r == header_instant(*h),
{
    match h {
        Some(s) => parse_rfc2822(s.as_str()),
        None => None,
    }
}

/// The validity window, in seconds, of a response with these `Date` and
/// `Expires` header texts; the default where either is missing or unreadable.
pub fn ttl_from_headers(date: &Option<String>, expires: &Option<String>) -> (r: i128)
    ensures
        r == ttl_of(header_instant(*date), header_instant(*expires)),
        -(u64::MAX as int) <= r <= u64::MAX,
{
    let d = read_date_header(date);
    let e = read_date_header(expires);
    ttl_from_instants(d, e)
}

/// The wait, in seconds, from the end of a response to the next poll: the
/// validity window plus the grace, none where that is negative.
pub open spec fn poll_delay(ttl: int) -> int {
    let d = ttl + POLL_GRACE_SECS;
    if d < 0 {
        0
    } else if d > u64::MAX {
        u64::MAX as int
    } else {
        d
    }
}

pub fn next_poll_delay(ttl: i128) -> (r: u64)
    ensures
        r == poll_delay(ttl as int),
{
    if ttl >= i128::MAX - 1 {
        return u64::MAX;
    }
    let d = ttl + POLL_GRACE_SECS as i128;
    if d < 0 {
        0
    } else if d > u64::MAX as i128 {
        u64::MAX
    } else {
        d as u64
    }
}

} // verus!
