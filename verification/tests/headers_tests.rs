use webhook::headers::Headers;

fn text(s: &str) -> String {
    s.to_string()
}

#[test]
fn new_headers_are_empty() {
    let headers = Headers::new();
    assert!(headers.is_empty());
    assert_eq!(headers.len(), 0);
    assert!(headers.get("Content-Type").is_none());
    assert!(!headers.contains("Content-Type"));
}

#[test]
fn inserted_header_is_found() {
    let mut headers = Headers::new();
    headers.insert(text("Content-Type"), text("application/json"));
    assert_eq!(headers.len(), 1);
    assert!(!headers.is_empty());
    assert_eq!(headers.get("Content-Type"), Some(&text("application/json")));
    assert!(headers.contains("Content-Type"));
    assert_eq!(headers.position("Content-Type"), Some(0));
}

#[test]
fn header_names_keep_their_case() {
    let mut headers = Headers::new();
    headers.insert(text("X-Token"), text("a"));
    assert!(headers.get("x-token").is_none());
    assert!(headers.get("X-TOKEN").is_none());
    assert_eq!(headers.name_at(0), "X-Token");
}

#[test]
fn second_write_replaces_the_value_in_place() {
    let mut headers = Headers::new();
    headers.insert(text("a"), text("1"));
    headers.insert(text("b"), text("2"));
    headers.insert(text("a"), text("3"));
    assert_eq!(headers.len(), 2);
    assert_eq!(headers.get("a"), Some(&text("3")));
    assert_eq!(headers.get("b"), Some(&text("2")));
    assert_eq!(headers.name_at(0), "a");
    assert_eq!(headers.value_at(0), "3");
    assert_eq!(headers.name_at(1), "b");
    assert_eq!(headers.value_at(1), "2");
}

#[test]
fn missing_name_has_no_position() {
    let mut headers = Headers::new();
    headers.insert(text("a"), text("1"));
    assert_eq!(headers.position("b"), None);
    assert_eq!(headers.position("A"), None);
    assert_eq!(headers.position(""), None);
}

#[test]
fn clone_keeps_entries_and_order() {
    let mut headers = Headers::new();
    headers.insert(text("z"), text("26"));
    headers.insert(text("a"), text("1"));
    let copy = headers.clone();
    assert_eq!(copy.len(), 2);
    assert_eq!(copy.name_at(0), "z");
    assert_eq!(copy.value_at(0), "26");
    assert_eq!(copy.name_at(1), "a");
    assert_eq!(copy.value_at(1), "1");
}

#[test]
fn sorted_listing_goes_by_name() {
    let mut headers = Headers::new();
    headers.insert(text("host"), text("h"));
    headers.insert(text("accept"), text("a"));
    headers.insert(text("user-agent"), text("u"));
    headers.insert(text("Accept"), text("A"));
    headers.insert(text("acc"), text("short"));
    let listing = headers.sorted();
    let expected = vec![
        (text("Accept"), text("A")),
        (text("acc"), text("short")),
        (text("accept"), text("a")),
        (text("host"), text("h")),
        (text("user-agent"), text("u")),
    ];
    assert_eq!(listing, expected);
    // the collection itself keeps the order of first writes
    assert_eq!(headers.name_at(0), "host");
}

#[test]
fn sorted_listing_agrees_with_the_standard_order() {
    let names = ["b", "a", "ab", "B", "", "é", "z", "aa"];
    let mut headers = Headers::new();
    for name in names {
        headers.insert(text(name), text("v"));
    }
    let listing = headers.sorted();
    let mut expected: Vec<String> = names.iter().map(|n| n.to_string()).collect();
    expected.sort();
    let got: Vec<String> = listing.into_iter().map(|pair| pair.0).collect();
    assert_eq!(got, expected);
}

#[test]
fn sorted_listing_of_nothing_is_empty() {
    assert!(Headers::new().sorted().is_empty());
}
