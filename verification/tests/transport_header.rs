//! Connection-forwarding header value types.

use route_metrics::transport::session_protocol::{Http1, Http2, Kind};
use route_metrics::transport::{Header, SessionProtocol};

#[test]
fn default_header_is_opaque() {
    let h = Header::default();
    assert_eq!(h.port, 0);
    assert_eq!(h.name, "");
    assert!(h.session_protocol.is_none());
    assert!(SessionProtocol::default().kind.is_none());
}

#[test]
fn header_equality() {
    let a = Header {
        port: 4143,
        name: String::from("gateway.example"),
        session_protocol: Some(SessionProtocol { kind: Some(Kind::Http1(Http1 {})) }),
    };
    let b = a.clone();
    assert!(a == b);

    let c = Header {
        port: 4143,
        name: String::from("gateway.example"),
        session_protocol: Some(SessionProtocol { kind: Some(Kind::Http2(Http2 {})) }),
    };
    assert!(a != c);

    let d = Header { port: 4144, ..a.clone() };
    assert!(a != d);

    let e = Header { name: String::from("other.example"), ..a.clone() };
    assert!(a != e);
}
