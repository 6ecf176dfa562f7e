use vstd::prelude::*;
use vstd::string::*;

use crate::names::text_eq;
use crate::snapshot::Snapshot;

verus! {

/// Unix time of 0000-01-01T00:00:00Z, the first instant an RFC 2822 date can write.
pub const MIN_HTTP_DATE_SECS: i64 = -62167219200;

/// Unix time of 9999-12-31T23:59:59Z, the last instant an RFC 2822 date can write.
pub const MAX_HTTP_DATE_SECS: i64 = 253402300799;

/// Names the text that `chrono`'s `DateTime::to_rfc2822` writes for a Unix time in seconds.
pub uninterp spec fn rfc2822_text(secs: i64) -> Seq<char>;

/// Relies on `chrono::DateTime::from_timestamp` and `DateTime::to_rfc2822`: the
/// RFC 2822 text of an instant, which depends on the instant alone. Both
/// succeed for the years 0 to 9999.
#[verifier::external_body]
fn format_rfc2822(secs: i64) -> (r: String)
    requires
        MIN_HTTP_DATE_SECS <= secs <= MAX_HTTP_DATE_SECS,
    ensures
        r@ == rfc2822_text(secs),
{
    match chrono::DateTime::from_timestamp(secs, 0) {
        Some(d) => d.to_rfc2822(),
        None => String::new(),
    }
}

/// The RFC 2822 text of an instant, where one can write it.
pub open spec fn http_date_of(secs: int) -> Option<Seq<char>> {
    if MIN_HTTP_DATE_SECS <= secs <= MAX_HTTP_DATE_SECS {
        Some(rfc2822_text(secs as i64))
    } else {
        None
    }
}

/// The HTTP date text of an instant in seconds; `None` outside the years 0 to 9999.
pub fn http_date(secs: i128) -> (r: Option<String>)
    ensures
        match r {
            Some(s) => http_date_of(secs as int) == Some(s@),
            None => http_date_of(secs as int) is None,
        },
{
    if MIN_HTTP_DATE_SECS as i128 <= secs && secs <= MAX_HTTP_DATE_SECS as i128 {
        Some(format_rfc2822(secs as i64))
    } else {
        None
    }
}

/// Seconds since the snapshot was stored, none before that.
pub open spec fn age_of(s: Snapshot, now: int) -> int {
    if now < s.stored_at {
        0
    } else {
        now - s.stored_at
    }
}

/// The headers with which the snapshot endpoint answers.
pub struct CacheHeaders {
    /// `Cache-Control`.
    pub cache_control: String,
    /// `Age`, in seconds.
    pub age: u64,
    /// `Expires`, where the snapshot's expiry can be written as a date.
    pub expires: Option<String>,
}

/// `Cache-Control` of the snapshot endpoint: a fixed ceiling, since the poller
/// already refreshes at the upstream's pace.
pub fn snapshot_cache_control() -> (r: String)
    ensures
        r@ == "public, max-age=10"@,
{
    String::from_str("public, max-age=10")
}

/// `Cache-Control` of the enrichment endpoint.
pub fn extra_cache_control() -> (r: String)
    ensures
        r@ == "public, max-age=3600"@,
{
    String::from_str("public, max-age=3600")
}

/// `Cache-Control` for a static file of the front end, by content type, for
/// responses that do not set one: an hour for pages and images, a week for
/// styles, scripts, WebAssembly and fonts, none for anything else.
pub open spec fn static_cache_control_of(ct: Seq<char>) -> Option<Seq<char>> {
    if ct == "text/html"@ || ct == "image/png"@ {
        Some("public, max-age=3600"@)
    } else if ct == "text/css"@ || ct == "text/javascript"@ || ct == "application/wasm"@ || ct
        == "font/ttf"@ {
        Some("public, max-age=604800"@)
    } else {
        None
    }
}

pub fn static_cache_control(content_type: &str) -> (r: Option<String>)
    ensures
        match r {
            Some(s) => static_cache_control_of(content_type@) == Some(s@),
            None => static_cache_control_of(content_type@) is None,
        },
{
    if text_eq(content_type, "text/html") || text_eq(content_type, "image/png") {
        Some(extra_cache_control())
    } else if text_eq(content_type, "text/css") || text_eq(content_type, "text/javascript")
        || text_eq(content_type, "application/wasm") || text_eq(content_type, "font/ttf") {
        Some(String::from_str("public, max-age=604800"))
    } else {
        None
    }
}

/// The cache headers for serving `snap` at `now`.
pub fn snapshot_headers(snap: &Snapshot, now: i64) -> (r: CacheHeaders)
    ensures
        r.cache_control@ == "public, max-age=10"@,
        r.age == age_of(*snap, now as int),
        match r.expires {
            Some(e) => http_date_of(snap.expires as int) == Some(e@),
            None => http_date_of(snap.expires as int) is None,
        },
{
    let age: u64 = if now < snap.stored_at {
        0
    } else {
        (now as i128 - snap.stored_at as i128) as u64
    };
    CacheHeaders { cache_control: snapshot_cache_control(), age, expires: http_date(snap.expires) }
}

/// Between the snapshot's storing and the next one, the age is never
/// negative, and the age plus the time left until expiry is the snapshot's
/// whole validity window.
pub proof fn law_age_and_remaining_window(snap: Snapshot, now: int)
    requires
        snap.stored_at <= now,
    ensures
        age_of(snap, now) >= 0,
        age_of(snap, now) + (snap.expires - now) == snap.expires - snap.stored_at,
{
}

} // verus!
