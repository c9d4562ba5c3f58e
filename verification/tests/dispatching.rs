use dispatch_core::config::CommandInfo;
use dispatch_core::context::RequestContext;
use dispatch_core::context::get_if_modified_since_time;
use dispatch_core::dispatch::HandlerWork;
use dispatch_core::dispatch::Lane;
use dispatch_core::dispatch::begin_request;
use dispatch_core::dispatch::complete_request;
use dispatch_core::handlers::ExternalHandler;
use dispatch_core::handlers::FixedHandler;
use dispatch_core::handlers::Handler;
use dispatch_core::handlers::command::CommandHandler;
use dispatch_core::handlers::not_found::NotFoundHandler;
use dispatch_core::handlers::static_file::StaticFileHandler;
use dispatch_core::logger::RequestLogInfo;
use dispatch_core::response::HandlerError;
use dispatch_core::response::ResponseBody;
use dispatch_core::response::build_response_string;
use dispatch_core::route::Route;
use dispatch_core::route::RouteConfiguration;
use dispatch_core::route::insert_route;

// 2024-01-01T00:00:00Z
const MTIME: i64 = 1704067200;

fn sample_table() -> RouteConfiguration {
    let mut routes: Vec<Route> = Vec::new();
    insert_route(
        &mut routes,
        "/".to_string(),
        Handler::Fixed(FixedHandler::new(
            200,
            "text/html".to_string(),
            "<html>index</html>".to_string(),
        )),
    );
    insert_route(
        &mut routes,
        "/static/report.txt".to_string(),
        Handler::StaticFile(StaticFileHandler::new(
            "/var/data/report.txt".to_string(),
            "text/plain".to_string(),
            60,
        )),
    );
    insert_route(
        &mut routes,
        "/uptime".to_string(),
        Handler::Command(CommandHandler::new(CommandInfo::new(
            "/uptime".to_string(),
            "show uptime".to_string(),
            "uptime".to_string(),
            Vec::new(),
        ))),
    );
    insert_route(
        &mut routes,
        "/proxy".to_string(),
        Handler::External(ExternalHandler { id: 7, requires_offload: true }),
    );
    RouteConfiguration::new(routes, Handler::NotFound(NotFoundHandler))
}

fn get(path: &str, headers: Vec<(String, String)>) -> RequestContext {
    RequestContext::new(
        "GET".to_string(),
        path.to_string(),
        "HTTP/1.1".to_string(),
        headers,
        1000,
    )
}

#[test]
fn fixed_handler_runs_inline() {
    let table = sample_table();
    let ctx = get("/", Vec::new());
    let plan = begin_request(&table, &ctx);
    assert_eq!(plan.lane, Lane::Inline);
    match plan.work {
        HandlerWork::Respond(response) => {
            assert_eq!(response.status, 200);
            assert_eq!(response.content_type.as_deref(), Some("text/html"));
            match response.body {
                ResponseBody::Text(s) => assert_eq!(s, "<html>index</html>"),
                _ => panic!("expected a text body"),
            }
        }
        _ => panic!("expected an inline response"),
    }
}

#[test]
fn missing_route_responds_404_inline() {
    let table = sample_table();
    let ctx = get("/missing", Vec::new());
    let plan = begin_request(&table, &ctx);
    assert_eq!(plan.lane, Lane::Inline);
    match plan.work {
        HandlerWork::Respond(response) => {
            assert_eq!(response.status, 404);
            assert_eq!(response.content_type.as_deref(), Some("text/plain"));
            match response.body {
                ResponseBody::Text(s) => assert_eq!(s, "Route not found"),
                _ => panic!("expected a text body"),
            }
        }
        _ => panic!("expected an inline response"),
    }
}

#[test]
fn static_file_route_is_planned_on_worker_lane() {
    let table = sample_table();
    let ctx = get("/static/report.txt", Vec::new());
    let plan = begin_request(&table, &ctx);
    assert_eq!(plan.lane, Lane::Worker);
    match plan.work {
        HandlerWork::ReadFile { handler, if_modified_since_secs } => {
            assert_eq!(handler.fs_path().as_str(), "/var/data/report.txt");
            assert!(if_modified_since_secs.is_none());
        }
        _ => panic!("expected a file read"),
    }
}

#[test]
fn conditional_header_is_parsed_into_the_plan() {
    let table = sample_table();
    let headers = vec![(
        "if-modified-since".to_string(),
        "Mon, 01 Jan 2024 00:00:00 GMT".to_string(),
    )];
    let ctx = get("/static/report.txt", headers);
    let plan = begin_request(&table, &ctx);
    match plan.work {
        HandlerWork::ReadFile { if_modified_since_secs, .. } => {
            assert_eq!(if_modified_since_secs, Some(MTIME));
        }
        _ => panic!("expected a file read"),
    }
}

#[test]
fn unparsable_conditional_header_is_ignored() {
    let headers = vec![("if-modified-since".to_string(), "not a date".to_string())];
    let ctx = get("/static/report.txt", headers);
    assert!(get_if_modified_since_time(&ctx).is_none());
}

#[test]
fn command_route_is_planned_on_worker_lane() {
    let table = sample_table();
    let ctx = get("/uptime", Vec::new());
    let plan = begin_request(&table, &ctx);
    assert_eq!(plan.lane, Lane::Worker);
    match plan.work {
        HandlerWork::RunCommand { handler } => {
            assert_eq!(handler.command_line_string().as_str(), "$ uptime");
        }
        _ => panic!("expected a command run"),
    }
}

#[test]
fn external_route_keeps_its_declared_lane() {
    let table = sample_table();
    let ctx = get("/proxy", Vec::new());
    let plan = begin_request(&table, &ctx);
    assert_eq!(plan.lane, Lane::Worker);
    match plan.work {
        HandlerWork::CallExternal { id } => assert_eq!(id, 7),
        _ => panic!("expected an external call"),
    }
}

fn log_info() -> RequestLogInfo {
    RequestLogInfo {
        start_nanos: 1_000_000_000,
        method: "GET".to_string(),
        uri: "/a".to_string(),
        version: "HTTP/1.1".to_string(),
    }
}

#[test]
fn successful_outcome_passes_through_and_logs_once() {
    let outcome = Ok(build_response_string(
        200,
        "ok".to_string(),
        "text/plain".to_string(),
    ));
    let completed = complete_request(&log_info(), outcome, 2_500_000_000);
    assert_eq!(completed.response.status, 200);
    assert!(completed.error.is_none());
    assert_eq!(completed.log_line, "\"GET /a HTTP/1.1\" 200 1.500000000s");
}

#[test]
fn error_outcome_becomes_bare_500_and_logs_once() {
    let outcome = Err(HandlerError::IoError("disk on fire".to_string()));
    let completed = complete_request(&log_info(), outcome, 1_000_123_456);
    assert_eq!(completed.response.status, 500);
    assert!(completed.response.content_type.is_none());
    assert!(matches!(completed.response.body, ResponseBody::Empty));
    match completed.error {
        Some(e) => {
            assert_eq!(e.description().as_str(), "IO Error");
            assert_eq!(e.cause().as_str(), "disk on fire");
        }
        None => panic!("expected the cause to be kept for the server-side log"),
    }
    assert_eq!(completed.log_line, "\"GET /a HTTP/1.1\" 500 0.000123456s");
}

#[test]
fn transport_error_outcome_is_kept_for_the_server_log() {
    let outcome = Err(HandlerError::Hyper("connection reset".to_string()));
    let completed = complete_request(&log_info(), outcome, 1_000_000_001);
    assert_eq!(completed.response.status, 500);
    match completed.error {
        Some(e) => {
            assert_eq!(e.description().as_str(), "Hyper Error");
            assert_eq!(e.cause().as_str(), "connection reset");
        }
        None => panic!("expected the cause to be kept for the server-side log"),
    }
    assert_eq!(completed.log_line, "\"GET /a HTTP/1.1\" 500 0.000000001s");
}

#[test]
fn clock_stepping_backwards_logs_zero_latency() {
    let outcome = Ok(build_response_string(
        200,
        "ok".to_string(),
        "text/plain".to_string(),
    ));
    let completed = complete_request(&log_info(), outcome, 5);
    assert_eq!(completed.log_line, "\"GET /a HTTP/1.1\" 200 0.000000000s");
}

#[test]
fn whole_static_request_round_trip_yields_304() {
    let table = sample_table();
    let headers = vec![(
        "if-modified-since".to_string(),
        "Mon, 01 Jan 2024 00:00:00 GMT".to_string(),
    )];
    let ctx = get("/static/report.txt", headers);
    let info = RequestLogInfo::new(&ctx);
    let plan = begin_request(&table, &ctx);
    let outcome = match plan.work {
        HandlerWork::ReadFile { handler, if_modified_since_secs } => {
            let file = dispatch_core::handlers::static_file::FileReadResult::Loaded {
                bytes: b"report body".to_vec(),
                modified_secs: Some(MTIME),
            };
            Ok(handler.respond(if_modified_since_secs, file))
        }
        _ => panic!("expected a file read"),
    };
    let completed = complete_request(&info, outcome, 2000);
    assert_eq!(completed.response.status, 304);
    assert!(matches!(completed.response.body, ResponseBody::Empty));
    assert_eq!(
        completed.response.cache_control.as_deref(),
        Some("public, max-age=60")
    );
    assert_eq!(completed.log_line, "\"GET /static/report.txt HTTP/1.1\" 304 0.000001000s");
}
