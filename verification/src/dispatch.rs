//! The dispatcher.
//!
//! Per request the dispatcher resolves the handler, decides which lane the
//! handler runs on, describes the work that lane must perform, and — once
//! the outcome is known — normalizes it: a response passes through
//! unchanged, a handler failure becomes a fixed 500 with nothing of the
//! fault in the body, and either way exactly one log line is produced.

use crate::context::RequestContext;
use crate::context::get_if_modified_since_time;
use crate::context::spec_if_modified_since;
use crate::handlers::Handler;
use crate::handlers::command::CommandHandler;
use crate::handlers::static_file::StaticFileHandler;
use crate::logger::RequestLogInfo;
use crate::logger::render_log_line;
use crate::logger::spec_elapsed_nanos;
use crate::logger::spec_log_line;
use crate::response::HandlerError;
use crate::response::HandlerOutcome;
use crate::response::Response;
use crate::response::build_response_status;
use crate::response::spec_status_response;
use crate::route::RouteConfiguration;
use vstd::prelude::*;

verus! {

/// Where a handler runs: inline on the connection-processing context, or on
/// the bounded worker pool.
#[derive(Clone, Copy, PartialEq, Eq, Structural, Debug)]
pub enum Lane {
    Inline,
    Worker,
}

/// The lane a handler is planned onto, from its declared offload
/// requirement alone.
pub open spec fn spec_lane(h: Handler) -> Lane {
    if h.spec_requires_offload() {
        Lane::Worker
    } else {
        Lane::Inline
    }
}

/// A handler that declares blocking work is always planned onto the worker
/// lane, and one that does not is always planned inline — no handler ever
/// runs on the other lane.
pub proof fn lemma_lane_follows_offload(h: Handler)
    ensures
        h.spec_requires_offload() ==> spec_lane(h) == Lane::Worker,
        !h.spec_requires_offload() ==> spec_lane(h) == Lane::Inline,
{
}

/// The work one request needs after resolution. Handlers the core can run
/// itself arrive as a finished response; the rest name the blocking step the
/// executing lane must perform before the core can finish.
pub enum HandlerWork<'a> {
    /// The handler ran inline; this is its response.
    Respond(Response),
    /// Read the handler's file, then finish with `StaticFileHandler::respond`.
    ReadFile { handler: &'a StaticFileHandler, if_modified_since_secs: Option<i64> },
    /// Run the handler's subprocess, then build the page from its output.
    RunCommand { handler: &'a CommandHandler },
    /// Run the external handler registered under `id`.
    CallExternal { id: u64 },
}

/// One request's plan: the lane to use and the work to perform there.
pub struct DispatchPlan<'a> {
    pub lane: Lane,
    pub work: HandlerWork<'a>,
}

/// Resolves the request's handler and plans its execution. The lane follows
/// the resolved handler's declared offload requirement; the work describes
/// exactly what that handler does with this request.
pub fn begin_request<'a>(table: &'a RouteConfiguration, req_context: &RequestContext) -> (plan:
    DispatchPlan<'a>)
    ensures
        plan.lane == spec_lane(table.spec_resolve(req_context.path@)),
        (table.spec_resolve(req_context.path@) matches Handler::Fixed(f) ==> plan.work matches
            HandlerWork::Respond(resp) && resp@ == f.spec_response()),
        (table.spec_resolve(req_context.path@) matches Handler::Config(c) ==> plan.work matches
            HandlerWork::Respond(resp) && resp@ == crate::response::spec_string_response(
            200,
            c.spec_config_string(),
            "text/plain"@,
        )),
        (table.spec_resolve(req_context.path@) matches Handler::Environment(e)
            ==> plan.work matches HandlerWork::Respond(resp) && resp@
            == crate::response::spec_string_response(
            200,
            e.spec_environment_string(),
            "text/plain"@,
        )),
        (table.spec_resolve(req_context.path@) matches Handler::NotFound(_) ==> plan.work matches
            HandlerWork::Respond(resp) && resp@
            == crate::handlers::not_found::spec_not_found_response()),
        (table.spec_resolve(req_context.path@) matches Handler::StaticFile(s) ==> plan.work matches
            HandlerWork::ReadFile { handler, if_modified_since_secs } && *handler == s
            && if_modified_since_secs == spec_if_modified_since(req_context.headers@)),
        (table.spec_resolve(req_context.path@) matches Handler::Command(c) ==> plan.work matches
            HandlerWork::RunCommand { handler } && *handler == c),
        (table.spec_resolve(req_context.path@) matches Handler::External(e) ==> plan.work matches
            HandlerWork::CallExternal { id } && id == e.id),
{
    let handler = table.resolve(&req_context.path);
    let lane = if handler.requires_offload() {
        Lane::Worker
    } else {
        Lane::Inline
    };
    let work = match handler {
        Handler::Fixed(f) => HandlerWork::Respond(f.handle()),
        Handler::Config(c) => HandlerWork::Respond(c.handle()),
        Handler::Environment(e) => HandlerWork::Respond(e.handle()),
        Handler::NotFound(n) => HandlerWork::Respond(n.handle()),
        Handler::StaticFile(s) => HandlerWork::ReadFile {
            handler: s,
            if_modified_since_secs: get_if_modified_since_time(req_context),
        },
        Handler::Command(c) => HandlerWork::RunCommand { handler: c },
        Handler::External(e) => HandlerWork::CallExternal { id: e.id },
    };
    DispatchPlan { lane, work }
}

/// The status the client sees for an outcome: a response's own status, or
/// 500 for a converted handler failure.
pub open spec fn spec_normalized_status(outcome: HandlerOutcome) -> u16 {
    match outcome {
        Ok(resp) => resp@.status,
        Err(_) => 500,
    }
}

/// A finished request: the one response sent to the client, the one log
/// line recorded for it, and — for a converted failure — the cause kept for
/// the server-side log only.
pub struct CompletedRequest {
    pub response: Response,
    pub log_line: String,
    pub error: Option<HandlerError>,
}

/// Normalizes a handler outcome and produces the request's single log line.
/// A response passes through unchanged; a handler failure becomes a bare 500
/// with an empty body, its cause returned for server-side logging and never
/// sent to the client. Both paths log alike.
pub fn complete_request(
    req_log_info: &RequestLogInfo,
    outcome: HandlerOutcome,
    completion_nanos: u64,
) -> (r: CompletedRequest)
    ensures
        (outcome matches Ok(resp) ==> r.response == resp),
        (outcome matches Err(_) ==> r.response@ == spec_status_response(500)),
        (outcome matches Err(e) ==> r.error == Some(e)),
        (outcome matches Ok(_) ==> r.error is None),
        r.log_line@ == spec_log_line(
            req_log_info.method@,
            req_log_info.uri@,
            req_log_info.version@,
            spec_normalized_status(outcome),
            spec_elapsed_nanos(req_log_info.start_nanos, completion_nanos),
        ),
{
    let (response, error) = match outcome {
        Ok(resp) => (resp, None),
        Err(e) => (build_response_status(500), Some(e)),
    };
    let log_line = render_log_line(req_log_info, response.status, completion_nanos);
    CompletedRequest { response, log_line, error }
}

/// A handler failure is recovered, never propagated: the client sees status
/// 500 with an empty body, the recorded latency is never negative, and the
/// request's log line carries the text `500` where the status stands.
pub proof fn lemma_error_outcome_logged(
    method: Seq<char>,
    uri: Seq<char>,
    version: Seq<char>,
    outcome: HandlerOutcome,
    start_nanos: u64,
    completion_nanos: u64,
)
    requires
        outcome matches Err(_),
    ensures
        spec_normalized_status(outcome) == 500,
        spec_elapsed_nanos(start_nanos, completion_nanos) >= 0,
        spec_log_line(method, uri, version, 500, spec_elapsed_nanos(start_nanos, completion_nanos))
            .subrange(
            method.len() + uri.len() + version.len() + 5 as int,
            method.len() + uri.len() + version.len() + 8 as int,
        ) == "500"@,
{
    let elapsed = spec_elapsed_nanos(start_nanos, completion_nanos);
    let line = spec_log_line(method, uri, version, 500, elapsed);
    reveal_strlit("\"");
    reveal_strlit(" ");
    reveal_strlit("\" ");
    reveal_strlit("500");
    assert(crate::textfmt::digit_char(5) == '5');
    assert(crate::textfmt::digit_char(0) == '0');
    assert(crate::textfmt::dec_rep(5) =~= seq!['5']);
    assert(crate::textfmt::dec_rep(50) =~= seq!['5', '0']);
    assert(crate::textfmt::dec_rep(500) =~= seq!['5', '0', '0']);
    assert("500"@ =~= seq!['5', '0', '0']);
    let k = method.len() + uri.len() + version.len() + 5;
    assert(line.subrange(k as int, k as int + 3) =~= seq!['5', '0', '0']);
}

} // verus!
