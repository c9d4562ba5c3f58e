//! HTTP dates.
//!
//! The conditional-GET negotiation reads the request's `If-Modified-Since`
//! header and writes the response's `Last-Modified` header. Both sides are
//! date text; chrono does the parsing and the formatting, and this module
//! names what it computes so that the rest of the core can be proved against
//! those names. Timestamps are whole seconds since the Unix epoch.

use vstd::prelude::*;

verus! {

/// The epoch seconds denoted by an RFC 2822 date string, or `None` where
/// chrono rejects the text. The result depends on the string alone.
pub uninterp spec fn rfc2822_secs(s: Seq<char>) -> Option<i64>;

/// The HTTP date text (`%a, %d %b %Y %H:%M:%S GMT`) of the given epoch
/// seconds. The result depends on the seconds alone.
pub uninterp spec fn http_date_of(secs: i64) -> Seq<char>;

/// Last epoch second this library renders as an HTTP date:
/// 9999-12-31T23:59:59Z, comfortably inside chrono's own range.
pub const MAX_HTTP_DATE_SECS: i64 = 253402300799;

/// Relies on chrono's `DateTime::parse_from_rfc2822` to read the date and on
/// `DateTime::timestamp` to turn it into whole epoch seconds; both depend on
/// the argument alone.
#[verifier::external_body]
pub(crate) fn parse_rfc2822_date(s: &str) -> (r: Option<i64>)
    ensures
        r == rfc2822_secs(s@),
{
    match chrono::DateTime::parse_from_rfc2822(s) {
        Ok(dt) => Some(dt.timestamp()),
        Err(_) => None,
    }
}

/// Relies on chrono's `DateTime::from_timestamp` (total on the admitted
/// range) and `format` with `%a, %d %b %Y %H:%M:%S GMT`; the text depends on
/// the seconds alone.
#[verifier::external_body]
pub(crate) fn format_http_date(secs: i64) -> (r: String)
    requires
        0 <= secs <= MAX_HTTP_DATE_SECS,
    ensures
        r@ == http_date_of(secs),
{
    match chrono::DateTime::from_timestamp(secs, 0) {
        Some(dt) => dt.format("%a, %d %b %Y %H:%M:%S GMT").to_string(),
        None => String::new(),
    }
}

/// The `Last-Modified` header produced for a resource: the HTTP date of its
/// last-modified time, where that time is known and renderable.
pub open spec fn spec_last_modified_header(modified_secs: Option<i64>) -> Option<Seq<char>> {
    match modified_secs {
        Some(t) => if 0 <= t <= MAX_HTTP_DATE_SECS {
            Some(http_date_of(t))
        } else {
            None
        },
        None => None,
    }
}

/// Renders the `Last-Modified` header value for a resource whose
/// last-modified time is known, as whole epoch seconds; a time that is not
/// known, or that lies outside the renderable range, yields no header.
pub fn build_last_modified_header(modified_secs: &Option<i64>) -> (r: Option<String>)
    ensures
        match r {
            Some(s) => spec_last_modified_header(*modified_secs) == Some(s@),
            None => spec_last_modified_header(*modified_secs) is None,
        },
{
    match modified_secs {
        Some(t) => {
            if 0 <= *t && *t <= MAX_HTTP_DATE_SECS {
                Some(format_http_date(*t))
            } else {
                None
            }
        },
        None => None,
    }
}

} // verus!
