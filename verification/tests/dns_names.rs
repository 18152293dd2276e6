//! DNS name validation edge cases.

use route_metrics::dns::dns_hostname;

#[test]
fn accepts_ordinary_hostnames() {
    assert_eq!(dns_hostname("great.website").as_deref(), Some("great.website"));
    assert_eq!(dns_hostname("different.website").as_deref(), Some("different.website"));
    assert_eq!(dns_hostname("localhost").as_deref(), Some("localhost"));
    assert_eq!(dns_hostname("a.b-c.example").as_deref(), Some("a.b-c.example"));
    assert_eq!(dns_hostname("xn--bcher-kva.example").as_deref(), Some("xn--bcher-kva.example"));
    assert_eq!(dns_hostname("0a.example").as_deref(), Some("0a.example"));
}

#[test]
fn rejects_ip_literals() {
    assert_eq!(dns_hostname("192.0.2.1"), None);
    assert_eq!(dns_hostname("3fff::"), None);
    assert_eq!(dns_hostname("[3fff::]"), None);
    assert_eq!(dns_hostname("::1"), None);
    assert_eq!(dns_hostname("127.0.0.1"), None);
}

#[test]
fn rejects_malformed_names() {
    assert_eq!(dns_hostname(""), None);
    assert_eq!(dns_hostname("."), None);
    assert_eq!(dns_hostname("a..b"), None);
    assert_eq!(dns_hostname(".example"), None);
    assert_eq!(dns_hostname("example."), None);
    assert_eq!(dns_hostname("-a.example"), None);
    assert_eq!(dns_hostname("a-.example"), None);
    assert_eq!(dns_hostname("a.example-"), None);
    assert_eq!(dns_hostname("ex ample"), None);
    assert_eq!(dns_hostname("ex_ample"), None);
    assert_eq!(dns_hostname("host:8080"), None);
    assert_eq!(dns_hostname("caf\u{e9}.example"), None);
}

#[test]
fn label_and_name_length_limits() {
    let label_63 = "a".repeat(63);
    let label_64 = "a".repeat(64);
    assert!(dns_hostname(&label_63).is_some());
    assert_eq!(dns_hostname(&label_64), None);

    // 253 characters in all is accepted; 254 is not.
    let mut name_253 = String::new();
    for _ in 0..63 {
        name_253.push_str("abc.");
    }
    name_253.push_str("x");
    assert_eq!(name_253.len(), 253);
    assert!(dns_hostname(&name_253).is_some());

    let mut name_254 = String::new();
    for _ in 0..63 {
        name_254.push_str("abc.");
    }
    name_254.push_str("xy");
    assert_eq!(name_254.len(), 254);
    assert_eq!(dns_hostname(&name_254), None);
}

#[test]
fn numeric_final_label_rejected() {
    // The final label may not be purely numeric, which excludes IPv4
    // literals; earlier labels may be.
    assert_eq!(dns_hostname("example.123"), None);
    assert_eq!(dns_hostname("123"), None);
    assert!(dns_hostname("123.example").is_some());
}
