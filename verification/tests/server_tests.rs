use std::sync::Arc;
use webhook::config::{Config, ResponseConfig, RouteConfig};
use webhook::headers::Headers;
use webhook::server::{
    capture, collect_headers, decode_body, effective_status, handle_request, plan_response, serve,
    AppState, IdCounter, InboundRequest, ResponsePlan, ERROR_STATUS, FALLBACK_STATUS, FIRST_ID,
};

fn inbound(method: &str, path: &str) -> InboundRequest {
    InboundRequest {
        method: method.to_string(),
        path: path.to_string(),
        query: None,
        headers: Vec::new(),
        body: Vec::new(),
    }
}

fn line(name: &str, value: Option<&str>) -> (String, Option<String>) {
    (name.to_string(), value.map(|v| v.to_string()))
}

fn config_with_status(status: u16) -> Config {
    let mut headers = Headers::new();
    headers.insert("X-A".to_string(), "1".to_string());
    Config {
        port: 1,
        host: "h".to_string(),
        response: ResponseConfig { status, headers, body: "fallback".to_string() },
        routes: vec![RouteConfig {
            path: "/teapot".to_string(),
            method: None,
            response: ResponseConfig {
                status: 418,
                headers: Headers::new(),
                body: "short and stout".to_string(),
            },
        }],
    }
}

#[test]
fn ids_start_at_one_and_count_up() {
    assert_eq!(FIRST_ID, 1);
    let mut counter = IdCounter::new();
    let ids: Vec<u64> = (0..100).map(|_| counter.next_id()).collect();
    let expected: Vec<u64> = (1..=100).collect();
    assert_eq!(ids, expected);
}

#[test]
fn ids_are_distinct_and_increasing() {
    let mut counter = IdCounter::starting_at(1_000);
    let mut last = counter.next_id();
    assert_eq!(last, 1_000);
    for _ in 0..50 {
        let id = counter.next_id();
        assert_eq!(id, last + 1);
        last = id;
    }
}

#[test]
fn ids_start_over_after_the_largest() {
    let mut counter = IdCounter::starting_at(u64::MAX - 1);
    assert_eq!(counter.next_id(), u64::MAX - 1);
    assert_eq!(counter.next_id(), u64::MAX);
    assert_eq!(counter.next_id(), 0);
    assert_eq!(counter.next_id(), 1);
}

#[test]
fn text_body_is_kept() {
    assert_eq!(decode_body(b"hello".to_vec()), Some("hello".to_string()));
    assert_eq!(decode_body("grüße ✓".as_bytes().to_vec()), Some("grüße ✓".to_string()));
    assert_eq!(decode_body(vec![0]), Some("\0".to_string()));
}

#[test]
fn empty_body_is_absent() {
    assert_eq!(decode_body(Vec::new()), None);
}

#[test]
fn body_that_is_not_utf8_is_absent() {
    assert_eq!(decode_body(vec![0xff]), None);
    assert_eq!(decode_body(vec![b'a', 0xc3]), None);
    assert_eq!(decode_body(vec![0xc3, 0x28]), None);
    assert_eq!(decode_body(vec![0xed, 0xa0, 0x80]), None);
    assert_eq!(decode_body(vec![b'o', b'k', 0x80, b'!']), None);
}

#[test]
fn header_lines_become_a_mapping() {
    let headers = collect_headers(&vec![line("host", Some("example")), line("accept", Some("*/*"))]);
    assert_eq!(headers.len(), 2);
    assert_eq!(headers.get("host"), Some(&"example".to_string()));
    assert_eq!(headers.get("accept"), Some(&"*/*".to_string()));
    assert!(headers.get("Host").is_none());
}

#[test]
fn last_header_line_of_a_name_wins() {
    let headers = collect_headers(&vec![
        line("x", Some("1")),
        line("y", Some("2")),
        line("x", Some("3")),
        line("x", Some("4")),
    ]);
    assert_eq!(headers.len(), 2);
    assert_eq!(headers.get("x"), Some(&"4".to_string()));
    assert_eq!(headers.get("y"), Some(&"2".to_string()));
}

#[test]
fn header_line_with_unreadable_value_is_skipped() {
    let headers = collect_headers(&vec![
        line("x", None),
        line("y", Some("v")),
        line("y", None),
        line("z", Some("")),
    ]);
    assert_eq!(headers.len(), 2);
    assert!(headers.get("x").is_none());
    assert_eq!(headers.get("y"), Some(&"v".to_string()));
    assert_eq!(headers.get("z"), Some(&String::new()));
}

#[test]
fn no_header_lines_give_no_headers() {
    assert!(collect_headers(&Vec::new()).is_empty());
}

#[test]
fn status_codes_from_100_to_999_are_sent() {
    assert_eq!(effective_status(100), 100);
    assert_eq!(effective_status(200), 200);
    assert_eq!(effective_status(418), 418);
    assert_eq!(effective_status(599), 599);
    assert_eq!(effective_status(600), 600);
    assert_eq!(effective_status(999), 999);
}

#[test]
fn other_status_codes_become_200() {
    assert_eq!(FALLBACK_STATUS, 200);
    assert_eq!(effective_status(0), 200);
    assert_eq!(effective_status(99), 200);
    assert_eq!(effective_status(1000), 200);
    assert_eq!(effective_status(u16::MAX), 200);
}

#[test]
fn internal_error_is_a_plain_500() {
    let plan = ResponsePlan::internal_error();
    assert_eq!(ERROR_STATUS, 500);
    assert_eq!(plan.status, 500);
    assert!(plan.headers.is_empty());
    assert_eq!(plan.body, "Internal Server Error");
}

#[test]
fn plan_goes_out_if_it_could_be_constructed() {
    let plan = ResponsePlan::of(&config_with_status(201).response).or_internal_error(true);
    assert_eq!(plan.status, 201);
    assert_eq!(plan.body, "fallback");
    assert_eq!(plan.headers.get("X-A"), Some(&"1".to_string()));
}

#[test]
fn internal_error_goes_out_if_it_could_not() {
    let plan = ResponsePlan::of(&config_with_status(201).response).or_internal_error(false);
    assert_eq!(plan.status, 500);
    assert_eq!(plan.body, "Internal Server Error");
    assert!(plan.headers.is_empty());
}

#[test]
fn plan_copies_the_configured_response() {
    let plan = plan_response(&config_with_status(202), "GET", "/else");
    assert_eq!(plan.status, 202);
    assert_eq!(plan.body, "fallback");
    assert_eq!(plan.headers.len(), 1);
    assert_eq!(plan.headers.get("X-A"), Some(&"1".to_string()));
    let teapot = plan_response(&config_with_status(202), "BREW", "/teapot");
    assert_eq!(teapot.status, 418);
    assert_eq!(teapot.body, "short and stout");
    assert!(teapot.headers.is_empty());
}

#[test]
fn plan_replaces_an_invalid_status() {
    assert_eq!(plan_response(&config_with_status(42), "GET", "/").status, 200);
    assert_eq!(plan_response(&config_with_status(1000), "GET", "/").status, 200);
    assert_eq!(plan_response(&config_with_status(42), "GET", "/").body, "fallback");
}

#[test]
fn builtin_configuration_answers_anything() {
    let config = Config::default();
    let plan = plan_response(&config, "GET", "/anything");
    assert_eq!(plan.status, 200);
    assert_eq!(plan.headers.get("Content-Type"), Some(&"application/json".to_string()));
    assert_eq!(plan.headers.len(), 1);
    assert_eq!(plan.body, "{\"status\": \"ok\"}");
    let root = plan_response(&config, "DELETE", "/");
    assert_eq!(root.status, 200);
    assert_eq!(root.body, "{\"status\": \"ok\"}");
}

#[test]
fn builtin_configuration_reports_health() {
    let config = Config::default();
    let plan = plan_response(&config, "GET", "/health");
    assert_eq!(plan.status, 200);
    assert_eq!(plan.body, "{\"healthy\": true}");
    assert!(plan.headers.is_empty());
    // the health rule is for GET only
    assert_eq!(plan_response(&config, "POST", "/health").body, "{\"status\": \"ok\"}");
    assert_eq!(plan_response(&config, "get", "/health").body, "{\"healthy\": true}");
}

#[test]
fn capture_records_the_request() {
    let mut counter = IdCounter::starting_at(5);
    let record = capture(
        &mut counter,
        InboundRequest {
            method: "POST".to_string(),
            path: "/hook".to_string(),
            query: Some("a=1".to_string()),
            headers: vec![line("content-type", Some("text/plain")), line("x-bin", None)],
            body: b"payload".to_vec(),
        },
    );
    assert_eq!(record.id, 5);
    assert_eq!(record.method, "POST");
    assert_eq!(record.path, "/hook");
    assert_eq!(record.query, Some("a=1".to_string()));
    assert_eq!(record.headers.get("content-type"), Some(&"text/plain".to_string()));
    assert!(record.headers.get("x-bin").is_none());
    assert_eq!(record.headers.len(), 1);
    assert_eq!(record.body, Some("payload".to_string()));
    assert_eq!(record.full_path(), "/hook?a=1");
    assert!(record.timestamp.secs() > 1_600_000_000);
    assert_eq!(counter.next_id(), 6);
}

#[test]
fn handling_resolves_without_the_query() {
    let config = config_with_status(200);
    let mut counter = IdCounter::new();
    let mut request = inbound("GET", "/teapot");
    request.query = Some("strength=3".to_string());
    let served = handle_request(&config, &mut counter, request);
    assert_eq!(served.0.id, 1);
    assert_eq!(served.0.path, "/teapot");
    assert_eq!(served.0.query, Some("strength=3".to_string()));
    assert!(served.0.body.is_none());
    assert_eq!(served.1.status, 418);
    assert_eq!(served.1.body, "short and stout");
    let second = handle_request(&config, &mut counter, inbound("GET", "/other"));
    assert_eq!(second.0.id, 2);
    assert_eq!(second.1.body, "fallback");
}

#[test]
fn served_requests_reach_the_viewer_in_order() {
    let (tx, mut rx) = tokio::sync::mpsc::unbounded_channel();
    let state = AppState { config: Arc::new(Config::default()), tx };
    let mut counter = IdCounter::new();
    for path in ["/one", "/two", "/three"] {
        let plan = serve(&state, &mut counter, inbound("GET", path));
        assert_eq!(plan.status, 200);
    }
    let first = rx.try_recv().unwrap();
    let second = rx.try_recv().unwrap();
    let third = rx.try_recv().unwrap();
    assert_eq!((first.id, first.path.as_str()), (1, "/one"));
    assert_eq!((second.id, second.path.as_str()), (2, "/two"));
    assert_eq!((third.id, third.path.as_str()), (3, "/three"));
    assert!(rx.try_recv().is_err());
}

#[test]
fn requests_are_served_after_the_viewer_has_gone() {
    let (tx, rx) = tokio::sync::mpsc::unbounded_channel();
    let state = AppState { config: Arc::new(Config::default()), tx };
    let mut counter = IdCounter::new();
    drop(rx);
    for _ in 0..10 {
        let mut request = inbound("GET", "/health");
        request.body = vec![0xff, 0xfe];
        let plan = serve(&state, &mut counter, request);
        assert_eq!(plan.status, 200);
        assert_eq!(plan.body, "{\"healthy\": true}");
    }
    let plan = serve(&state, &mut counter, inbound("PATCH", "/missing"));
    assert_eq!(plan.body, "{\"status\": \"ok\"}");
    assert_eq!(plan.headers.get("Content-Type"), Some(&"application/json".to_string()));
    // every request was counted, delivered or not
    assert_eq!(counter.next_id(), 12);
}
