use dispatch_core::handlers::FixedHandler;
use dispatch_core::handlers::Handler;
use dispatch_core::handlers::not_found::NotFoundHandler;
use dispatch_core::response::ResponseBody;
use dispatch_core::route::Route;
use dispatch_core::route::RouteConfiguration;
use dispatch_core::route::insert_route;

fn fixed(status: u16, body: &str) -> Handler {
    Handler::Fixed(FixedHandler::new(
        status,
        "text/plain".to_string(),
        body.to_string(),
    ))
}

fn sample_table() -> RouteConfiguration {
    let mut routes: Vec<Route> = Vec::new();
    insert_route(&mut routes, "/".to_string(), fixed(200, "index"));
    insert_route(&mut routes, "/a".to_string(), fixed(200, "a"));
    insert_route(&mut routes, "/b".to_string(), fixed(200, "b"));
    RouteConfiguration::new(routes, Handler::NotFound(NotFoundHandler))
}

fn body_text(handler: &Handler) -> &str {
    match handler {
        Handler::Fixed(f) => f.body.as_str(),
        _ => panic!("expected a fixed handler"),
    }
}

#[test]
fn resolve_returns_registered_handler() {
    let table = sample_table();
    assert_eq!(body_text(table.resolve(&"/".to_string())), "index");
    assert_eq!(body_text(table.resolve(&"/a".to_string())), "a");
    assert_eq!(body_text(table.resolve(&"/b".to_string())), "b");
}

#[test]
fn resolve_unregistered_path_yields_not_found_handler() {
    let table = sample_table();
    let handler = table.resolve(&"/missing".to_string());
    assert!(matches!(handler, Handler::NotFound(_)));
}

#[test]
fn resolve_is_exact_and_case_sensitive() {
    let table = sample_table();
    assert!(matches!(table.resolve(&"/A".to_string()), Handler::NotFound(_)));
    assert!(matches!(table.resolve(&"/a/".to_string()), Handler::NotFound(_)));
    assert!(matches!(table.resolve(&"".to_string()), Handler::NotFound(_)));
}

#[test]
fn insert_route_replaces_earlier_registration() {
    let mut routes: Vec<Route> = Vec::new();
    insert_route(&mut routes, "/x".to_string(), fixed(200, "first"));
    insert_route(&mut routes, "/y".to_string(), fixed(200, "other"));
    insert_route(&mut routes, "/x".to_string(), fixed(200, "second"));
    assert_eq!(routes.len(), 2);
    let table = RouteConfiguration::new(routes, Handler::NotFound(NotFoundHandler));
    assert_eq!(body_text(table.resolve(&"/x".to_string())), "second");
    assert_eq!(body_text(table.resolve(&"/y".to_string())), "other");
}

#[test]
fn empty_table_resolves_everything_to_not_found() {
    let table = RouteConfiguration::new(Vec::new(), Handler::NotFound(NotFoundHandler));
    assert!(matches!(table.resolve(&"/".to_string()), Handler::NotFound(_)));
    assert!(matches!(table.resolve(&"".to_string()), Handler::NotFound(_)));
}

#[test]
fn not_found_handler_yields_404_plain_text() {
    let response = NotFoundHandler.handle();
    assert_eq!(response.status, 404);
    assert_eq!(response.content_type.as_deref(), Some("text/plain"));
    assert!(response.cache_control.is_none());
    assert!(response.last_modified.is_none());
    match response.body {
        ResponseBody::Text(s) => assert_eq!(s, "Route not found"),
        _ => panic!("expected a text body"),
    }
}
