//! The request log.
//!
//! Every dispatched request yields exactly one log line, produced after its
//! outcome is known: the request line in quotes, the final status code, and
//! the elapsed wall-clock time in seconds with nanosecond precision. The
//! line for a converted handler failure looks exactly like the line for a
//! normal response.

use crate::context::RequestContext;
use crate::textfmt::dec_rep;
use crate::textfmt::padded_dec_rep;
use crate::textfmt::push_dec_u64;
use crate::textfmt::push_padded_dec_u64;
use vstd::prelude::*;

verus! {

/// What the log line needs from a request, captured before the handler
/// runs so that the line can be written whatever the outcome.
pub struct RequestLogInfo {
    pub start_nanos: u64,
    pub method: String,
    pub uri: String,
    pub version: String,
}

impl RequestLogInfo {
    /// Captures the request line's parts and the arrival instant.
    pub fn new(req_context: &RequestContext) -> (r: RequestLogInfo)
        ensures
            r.start_nanos == req_context.arrival_nanos,
            r.method@ == req_context.method@,
            r.uri@ == req_context.path@,
            r.version@ == req_context.version@,
    {
        RequestLogInfo {
            start_nanos: req_context.arrival_nanos,
            method: req_context.method.clone(),
            uri: req_context.path.clone(),
            version: req_context.version.clone(),
        }
    }
}

/// Nanoseconds elapsed between arrival and completion; a clock that stepped
/// backwards counts as no time at all.
pub open spec fn spec_elapsed_nanos(start_nanos: u64, completion_nanos: u64) -> u64 {
    if completion_nanos >= start_nanos {
        (completion_nanos - start_nanos) as u64
    } else {
        0
    }
}

/// The elapsed time rendered as seconds: the whole seconds, a dot, and the
/// nanosecond remainder padded to nine digits, ending in `s`.
pub open spec fn spec_duration_text(elapsed_nanos: u64) -> Seq<char> {
    dec_rep((elapsed_nanos / 1000000000) as nat) + "."@ + padded_dec_rep(
        (elapsed_nanos % 1000000000) as nat,
        9,
    ) + "s"@
}

/// One request's log line: `"METHOD URI VERSION" STATUS SECONDSs`.
pub open spec fn spec_log_line(
    method: Seq<char>,
    uri: Seq<char>,
    version: Seq<char>,
    status: u16,
    elapsed_nanos: u64,
) -> Seq<char> {
    "\""@ + method + " "@ + uri + " "@ + version + "\" "@ + dec_rep(status as nat) + " "@
        + spec_duration_text(elapsed_nanos)
}

/// Renders the one log line for a completed request.
pub fn render_log_line(req_log_info: &RequestLogInfo, status: u16, completion_nanos: u64) -> (r:
    String)
    ensures
        r@ == spec_log_line(
            req_log_info.method@,
            req_log_info.uri@,
            req_log_info.version@,
            status,
            spec_elapsed_nanos(req_log_info.start_nanos, completion_nanos),
        ),
{
    let elapsed: u64 = if completion_nanos >= req_log_info.start_nanos {
        completion_nanos - req_log_info.start_nanos
    } else {
        0
    };
    let mut line = "\"".to_owned();
    line.append(req_log_info.method.as_str());
    line.append(" ");
    line.append(req_log_info.uri.as_str());
    line.append(" ");
    line.append(req_log_info.version.as_str());
    line.append("\" ");
    push_dec_u64(&mut line, status as u64);
    line.append(" ");
    push_dec_u64(&mut line, elapsed / 1000000000);
    line.append(".");
    push_padded_dec_u64(&mut line, elapsed % 1000000000, 9);
    line.append("s");
    proof {
        assert(line@ =~= spec_log_line(
            req_log_info.method@,
            req_log_info.uri@,
            req_log_info.version@,
            status,
            spec_elapsed_nanos(req_log_info.start_nanos, completion_nanos),
        ));
    }
    line
}

} // verus!
