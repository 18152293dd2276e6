//! Accept-header negotiation for the administrative endpoint.

use route_metrics::accept::{accepts_json, contains_str};

#[test]
fn no_header_accepts_json() {
    assert!(accepts_json(None));
}

#[test]
fn json_mime_values_accepted() {
    assert!(accepts_json(Some("application/json")));
    assert!(accepts_json(Some("text/html, application/json;q=0.9")));
    assert!(accepts_json(Some("application/*")));
    assert!(accepts_json(Some("*/*")));
    assert!(accepts_json(Some("text/*, */*;q=0.1")));
}

#[test]
fn other_mime_values_rejected() {
    assert!(!accepts_json(Some("text/html")));
    assert!(!accepts_json(Some("application/yaml")));
    assert!(!accepts_json(Some("")));
    assert!(!accepts_json(Some("json")));
}

#[test]
fn substring_search() {
    assert!(contains_str("application/json", "application/json"));
    assert!(contains_str("xx*/*yy", "*/*"));
    assert!(!contains_str("*/", "*/*"));
    assert!(contains_str("anything", ""));
    assert!(!contains_str("", "a"));
    assert!(contains_str("aaab", "aab"));
}
