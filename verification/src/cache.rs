//! Conditional-GET decisions.
//!
//! A stateless helper that decides, from a resource's last-modified time and
//! the request's `If-Modified-Since` header, whether the resource must be sent
//! in full or a `304 Not Modified` answer suffices. Timestamps carry whole
//! seconds since the Unix epoch, so two instants within the same second
//! compare as equal.

use crate::textfmt::dec_rep;
use crate::textfmt::push_dec_u64;
use vstd::prelude::*;

verus! {

/// Outcome of the conditional-GET negotiation for one request.
#[derive(Clone, Copy, PartialEq, Eq, Structural, Debug)]
pub enum CacheDecision {
    /// The resource must be sent in full, with status 200.
    SendFull,
    /// The client's copy is current: status 304 with an empty body.
    NotModified,
}

/// Decides between a full 200 answer and a 304 for a resource whose
/// last-modified time is `last_modified_secs`, given the request's
/// `If-Modified-Since` time if one was supplied.
///
/// With no request timestamp the resource is always sent in full; otherwise a
/// request timestamp at or after the resource's last modification yields
/// `NotModified`.
pub fn cache_decision(last_modified_secs: i64, if_modified_since_secs: Option<i64>) -> (r:
    CacheDecision)
    ensures
        r == spec_cache_decision(last_modified_secs, if_modified_since_secs),
{
    match if_modified_since_secs {
        None => CacheDecision::SendFull,
        Some(t) => {
            if t >= last_modified_secs {
                CacheDecision::NotModified
            } else {
                CacheDecision::SendFull
            }
        },
    }
}

/// What `cache_decision` returns.
pub open spec fn spec_cache_decision(
    last_modified_secs: i64,
    if_modified_since_secs: Option<i64>,
) -> CacheDecision {
    match if_modified_since_secs {
        None => CacheDecision::SendFull,
        Some(t) => if t >= last_modified_secs {
            CacheDecision::NotModified
        } else {
            CacheDecision::SendFull
        },
    }
}

/// Whether a resource counts as modified since the request's
/// `If-Modified-Since` time, so that it must be sent in full. A request
/// without that time, or a resource whose last-modified time is unknown,
/// always counts as modified.
pub open spec fn spec_file_modified_since(
    if_modified_since_secs: Option<i64>,
    file_last_modified_secs: Option<i64>,
) -> bool {
    match (if_modified_since_secs, file_last_modified_secs) {
        (Some(t), Some(m)) => spec_cache_decision(m, Some(t)) == CacheDecision::SendFull,
        _ => true,
    }
}

/// Decides whether the resource must be sent in full (`true`) or a 304
/// answer suffices (`false`), from the request's `If-Modified-Since` time
/// and the resource's last-modified time, each given as whole epoch seconds
/// where known.
pub fn file_modified_since_header(
    if_modified_since_secs: &Option<i64>,
    file_last_modified_secs: &Option<i64>,
) -> (r: bool)
    ensures
        r == spec_file_modified_since(*if_modified_since_secs, *file_last_modified_secs),
{
    match (if_modified_since_secs, file_last_modified_secs) {
        (Some(t), Some(m)) => {
            match cache_decision(*m, Some(*t)) {
                CacheDecision::SendFull => true,
                CacheDecision::NotModified => false,
            }
        },
        _ => true,
    }
}

/// The `Cache-Control` value for a resource whose configured cache lifetime
/// is `max_age_seconds`.
pub open spec fn spec_cache_control(max_age_seconds: u32) -> Seq<char> {
    "public, max-age="@ + dec_rep(max_age_seconds as nat)
}

/// Renders `public, max-age=N` for a cache lifetime of `N` seconds.
pub fn cache_control_value(max_age_seconds: u32) -> (r: String)
    ensures
        r@ == spec_cache_control(max_age_seconds),
{
    let mut s = "public, max-age=".to_owned();
    push_dec_u64(&mut s, max_age_seconds as u64);
    s
}

} // verus!

