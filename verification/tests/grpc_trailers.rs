//! gRPC trailer handling: status decoding and trailer-frame resolution
//! through a real header map.

use route_metrics::body::ResponseMonitor;
use route_metrics::labels::{GrpcRsp, ParentRef, RouteLabels, RouteRef, Rsp, RspOutcome};
use route_metrics::outcome::{parse_grpc_code, GRPC_CODE_OK, GRPC_CODE_UNKNOWN};
use route_metrics::registry::RequestMetrics;
use route_metrics::ErrorKind;

fn test_labels() -> RouteLabels {
    RouteLabels {
        parent: ParentRef { name: String::from("parent") },
        route: RouteRef { name: String::from("route") },
        hostname: None,
    }
}

fn grpc_rsp(labels: &RouteLabels, status: Option<u16>, error: Option<ErrorKind>) -> Rsp {
    Rsp {
        route: labels.clone_value(),
        outcome: RspOutcome::Grpc(GrpcRsp { status, error }),
    }
}

#[test]
fn decodes_known_codes() {
    assert_eq!(parse_grpc_code(b"0"), GRPC_CODE_OK);
    assert_eq!(parse_grpc_code(b"1"), 1);
    assert_eq!(parse_grpc_code(b"5"), 5);
    assert_eq!(parse_grpc_code(b"9"), 9);
    assert_eq!(parse_grpc_code(b"10"), 10);
    assert_eq!(parse_grpc_code(b"16"), 16);
}

#[test]
fn unknown_values_decode_to_unknown() {
    assert_eq!(parse_grpc_code(b""), GRPC_CODE_UNKNOWN);
    assert_eq!(parse_grpc_code(b"17"), 2);
    assert_eq!(parse_grpc_code(b"99"), 2);
    assert_eq!(parse_grpc_code(b"007"), 2);
    assert_eq!(parse_grpc_code(b"-1"), 2);
    assert_eq!(parse_grpc_code(b"ok"), 2);
}

#[test]
fn trailers_with_status_ok() {
    let labels = test_labels();
    let mut metrics = RequestMetrics::new();
    let ok = grpc_rsp(&labels, Some(0), None);

    let mut trailers = http::HeaderMap::new();
    trailers.insert(
        http::HeaderName::from_static("grpc-status"),
        http::HeaderValue::from_static("0"),
    );

    let mut mon = ResponseMonitor::new_grpc(labels.clone_value());
    mon.on_trailers(&trailers, &mut metrics);
    assert_eq!(metrics.get_statuses(&ok), 1);

    // A second trailers frame observed after completion changes nothing.
    mon.on_trailers(&trailers, &mut metrics);
    assert_eq!(metrics.get_statuses(&ok), 1);
}

#[test]
fn trailers_with_nonzero_status() {
    let labels = test_labels();
    let mut metrics = RequestMetrics::new();
    let not_found = grpc_rsp(&labels, Some(5), None);
    let err = grpc_rsp(&labels, Some(5), Some(ErrorKind::Unknown));

    let mut trailers = http::HeaderMap::new();
    trailers.insert(
        http::HeaderName::from_static("grpc-status"),
        http::HeaderValue::from_static("5"),
    );

    let mut mon = ResponseMonitor::new_grpc(labels.clone_value());
    mon.on_trailers(&trailers, &mut metrics);
    assert_eq!(metrics.get_statuses(&not_found), 1);
    assert_eq!(metrics.get_statuses(&err), 0);
}

#[test]
fn trailers_without_status_field() {
    let labels = test_labels();
    let mut metrics = RequestMetrics::new();
    let unknown = grpc_rsp(&labels, None, Some(ErrorKind::Unknown));

    let mut trailers = http::HeaderMap::new();
    trailers.insert(
        http::HeaderName::from_static("x-extra"),
        http::HeaderValue::from_static("yes"),
    );

    let mut mon = ResponseMonitor::new_grpc(labels.clone_value());
    mon.on_trailers(&trailers, &mut metrics);
    assert_eq!(metrics.get_statuses(&unknown), 1);
}
