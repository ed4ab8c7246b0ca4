use webhook::headers::Headers;
use webhook::json::{format_body, prefer_pretty};
use webhook::request::CapturedRequest;
use webhook::timestamp::{Timestamp, MAX_SECONDS};

fn record(secs: i64, method: &str, path: &str, query: Option<&str>, body: Option<&str>) -> CapturedRequest {
    CapturedRequest::at(
        7,
        Timestamp::new(secs, 0).unwrap(),
        method.to_string(),
        path.to_string(),
        query.map(|q| q.to_string()),
        Headers::new(),
        body.map(|b| b.to_string()),
    )
}

#[test]
fn timestamp_accepts_its_whole_range() {
    assert!(Timestamp::new(0, 0).is_some());
    assert!(Timestamp::new(MAX_SECONDS, 999_999_999).is_some());
    let t = Timestamp::new(12, 34).unwrap();
    assert_eq!(t.secs(), 12);
    assert_eq!(t.nanos(), 34);
}

#[test]
fn timestamp_rejects_what_lies_outside() {
    assert!(Timestamp::new(-1, 0).is_none());
    assert!(Timestamp::new(MAX_SECONDS + 1, 0).is_none());
    assert!(Timestamp::new(0, 1_000_000_000).is_none());
    assert!(Timestamp::new(i64::MIN, 0).is_none());
    assert!(Timestamp::new(i64::MAX, u32::MAX).is_none());
}

#[test]
fn now_is_a_timestamp_of_this_century() {
    let now = Timestamp::now();
    assert!(now.secs() > 1_600_000_000);
    assert!(now.secs() <= MAX_SECONDS);
    assert!(now.nanos() < 1_000_000_000);
    assert_eq!(now.clock().len(), 8);
}

#[test]
fn clock_shows_hours_minutes_seconds() {
    assert_eq!(Timestamp::new(0, 0).unwrap().clock(), "00:00:00");
    assert_eq!(Timestamp::new(3661, 0).unwrap().clock(), "01:01:01");
    assert_eq!(Timestamp::new(86_399, 999_999_999).unwrap().clock(), "23:59:59");
    assert_eq!(Timestamp::new(86_400, 0).unwrap().clock(), "00:00:00");
    assert_eq!(Timestamp::new(1_700_000_000, 0).unwrap().clock(), "22:13:20");
    assert_eq!(Timestamp::new(MAX_SECONDS, 0).unwrap().clock(), "23:59:59");
}

#[test]
fn rfc3339_shows_date_and_time() {
    assert_eq!(Timestamp::new(0, 0).unwrap().rfc3339(), "1970-01-01T00:00:00+00:00");
    assert_eq!(Timestamp::new(1_700_000_000, 0).unwrap().rfc3339(), "2023-11-14T22:13:20+00:00");
    assert_eq!(
        Timestamp::new(1_700_000_000, 500_000_000).unwrap().rfc3339(),
        "2023-11-14T22:13:20.500+00:00"
    );
    assert_eq!(Timestamp::new(MAX_SECONDS, 0).unwrap().rfc3339(), "+262142-12-31T23:59:59+00:00");
}

#[test]
fn record_holds_what_it_was_given() {
    let mut headers = Headers::new();
    headers.insert("host".to_string(), "example".to_string());
    let r = CapturedRequest::at(
        42,
        Timestamp::new(5, 6).unwrap(),
        "PUT".to_string(),
        "/x".to_string(),
        Some("a=1".to_string()),
        headers,
        Some("body".to_string()),
    );
    assert_eq!(r.id, 42);
    assert_eq!(r.timestamp.secs(), 5);
    assert_eq!(r.timestamp.nanos(), 6);
    assert_eq!(r.method, "PUT");
    assert_eq!(r.path, "/x");
    assert_eq!(r.query, Some("a=1".to_string()));
    assert_eq!(r.headers.get("host"), Some(&"example".to_string()));
    assert_eq!(r.body, Some("body".to_string()));
}

#[test]
fn new_record_is_stamped_now() {
    let before = Timestamp::now();
    let r = CapturedRequest::new(1, "GET".to_string(), "/".to_string(), None, Headers::new(), None);
    let after = Timestamp::now();
    assert_eq!(r.id, 1);
    assert_eq!(r.method, "GET");
    assert_eq!(r.path, "/");
    assert!(r.query.is_none());
    assert!(r.body.is_none());
    assert!(before.secs() <= r.timestamp.secs());
    assert!(r.timestamp.secs() <= after.secs());
}

#[test]
fn full_path_appends_a_query() {
    assert_eq!(record(0, "GET", "/a", Some("b=1&c=2"), None).full_path(), "/a?b=1&c=2");
}

#[test]
fn full_path_without_query_is_the_path() {
    assert_eq!(record(0, "GET", "/a", None, None).full_path(), "/a");
}

#[test]
fn full_path_ignores_an_empty_query() {
    assert_eq!(record(0, "GET", "/a", Some(""), None).full_path(), "/a");
}

#[test]
fn timestamp_display_is_the_clock() {
    assert_eq!(record(45_296, "GET", "/", None, None).timestamp_display(), "12:34:56");
}

#[test]
fn summary_reads_like_a_log_line() {
    assert_eq!(record(43_200, "GET", "/a", Some("b=1"), None).summary(), "[12:00:00] GET /a?b=1");
    assert_eq!(record(0, "POST", "/", None, None).summary(), "[00:00:00] POST /");
}

#[test]
fn absent_body_has_no_formatted_body() {
    assert_eq!(record(0, "GET", "/", None, None).formatted_body(), None);
}

#[test]
fn json_body_is_indented() {
    let r = record(0, "POST", "/", None, Some("{\"a\":1,\"b\":[true,null]}"));
    assert_eq!(
        r.formatted_body(),
        Some("{\n  \"a\": 1,\n  \"b\": [\n    true,\n    null\n  ]\n}".to_string())
    );
}

#[test]
fn json_scalar_body_is_normalised() {
    assert_eq!(record(0, "POST", "/", None, Some(" 12 ")).formatted_body(), Some("12".to_string()));
    assert_eq!(
        record(0, "POST", "/", None, Some("\"x\"")).formatted_body(),
        Some("\"x\"".to_string())
    );
}

#[test]
fn other_body_is_left_alone() {
    assert_eq!(
        record(0, "POST", "/", None, Some("name=value&x")).formatted_body(),
        Some("name=value&x".to_string())
    );
    assert_eq!(
        record(0, "POST", "/", None, Some("{\"a\":")).formatted_body(),
        Some("{\"a\":".to_string())
    );
}

#[test]
fn format_body_agrees_with_formatted_body() {
    assert_eq!(format_body(&"[1,2]".to_string()), "[\n  1,\n  2\n]");
    assert_eq!(format_body(&"not json".to_string()), "not json");
}

#[test]
fn pretty_text_is_preferred_when_present() {
    assert_eq!(prefer_pretty(&"raw".to_string(), Some("pretty".to_string())), "pretty");
    assert_eq!(prefer_pretty(&"raw".to_string(), None), "raw");
    assert_eq!(prefer_pretty(&"raw".to_string(), Some(String::new())), "");
}

#[test]
fn clone_of_a_record_is_the_same_record() {
    let r = record(99, "GET", "/a", Some("q"), Some("b"));
    let c = r.clone();
    assert_eq!(c.id, r.id);
    assert_eq!(c.timestamp.secs(), 99);
    assert_eq!(c.method, "GET");
    assert_eq!(c.path, "/a");
    assert_eq!(c.query, Some("q".to_string()));
    assert_eq!(c.body, Some("b".to_string()));
}
