//! Per-request context.
//!
//! One `RequestContext` is built per inbound request, immediately on receipt,
//! and stays read-only for the request's lifetime. It carries the request
//! line's parts, the header fields (names lowercased by the transport layer),
//! and the arrival instant as nanoseconds on a monotonic clock, from which the
//! logged latency is measured.

use crate::httpdate::parse_rfc2822_date;
use crate::httpdate::rfc2822_secs;
use vstd::prelude::*;

verus! {

/// Immutable per-request bundle.
pub struct RequestContext {
    pub method: String,
    pub path: String,
    pub version: String,
    pub headers: Vec<(String, String)>,
    pub arrival_nanos: u64,
}

/// The value of the first header field named `name`, if any.
pub open spec fn spec_header_lookup(headers: Seq<(String, String)>, name: Seq<char>) -> Option<
    Seq<char>,
>
    decreases headers.len(),
{
    if headers.len() == 0 {
        None
    } else if headers[0].0@ == name {
        Some(headers[0].1@)
    } else {
        spec_header_lookup(headers.drop_first(), name)
    }
}

/// The request's `If-Modified-Since` time as epoch seconds: the header's
/// value read as an RFC 2822 date, where the header is present and parses.
pub open spec fn spec_if_modified_since(headers: Seq<(String, String)>) -> Option<i64> {
    match spec_header_lookup(headers, "if-modified-since"@) {
        Some(v) => rfc2822_secs(v),
        None => None,
    }
}

impl RequestContext {
    /// Bundles one inbound request. Header names are expected lowercased, as
    /// the transport layer delivers them.
    pub fn new(
        method: String,
        path: String,
        version: String,
        headers: Vec<(String, String)>,
        arrival_nanos: u64,
    ) -> (r: RequestContext)
        ensures
            r.method@ == method@,
            r.path@ == path@,
            r.version@ == version@,
            r.headers@ == headers@,
            r.arrival_nanos == arrival_nanos,
    {
        RequestContext { method, path, version, headers, arrival_nanos }
    }

    /// The value of the first header field named `name`, if any.
    pub fn header_value(&self, name: &String) -> (r: Option<&String>)
        ensures
            match r {
                Some(v) => spec_header_lookup(self.headers@, name@) == Some(v@),
                None => spec_header_lookup(self.headers@, name@) is None,
            },
    {
        let n = self.headers.len();
        let mut i: usize = 0;
        proof {
            assert(self.headers@.skip(0) =~= self.headers@);
        }
        while i < n
            invariant
                0 <= i <= n,
                n == self.headers@.len(),
                spec_header_lookup(self.headers@, name@) == spec_header_lookup(
                    self.headers@.skip(i as int),
                    name@,
                ),
            decreases n - i,
        {
            let pair = &self.headers[i];
            proof {
                assert(self.headers@.skip(i as int)[0] == self.headers@[i as int]);
                assert(self.headers@.skip(i as int).drop_first() =~= self.headers@.skip(
                    i as int + 1,
                ));
            }
            if pair.0 == *name {
                return Some(&pair.1);
            }
            i += 1;
        }
        None
    }
}

/// Reads the request's `If-Modified-Since` header as an RFC 2822 date.
pub fn get_if_modified_since_time(req_context: &RequestContext) -> (r: Option<i64>)
    ensures
        r == spec_if_modified_since(req_context.headers@),
{
    let name = "if-modified-since".to_owned();
    match req_context.header_value(&name) {
        Some(v) => parse_rfc2822_date(v.as_str()),
        None => None,
    }
}

} // verus!
