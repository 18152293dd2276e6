//! Outcome accounting across the terminal paths of instrumented bodies.

use route_metrics::body::{Proto, ResponseMonitor};
use route_metrics::labels::{GrpcRsp, HttpRsp, ParentRef, RouteLabels, RouteRef, Rsp, RspOutcome};
use route_metrics::registry::{RequestBodyFamilies, RequestMetrics};
use route_metrics::service::on_dispatch_failure;
use route_metrics::ErrorKind;

fn test_labels() -> RouteLabels {
    RouteLabels {
        parent: ParentRef { name: String::from("parent") },
        route: RouteRef { name: String::from("route") },
        hostname: None,
    }
}

fn http_rsp(labels: &RouteLabels, status: Option<u16>, error: Option<ErrorKind>) -> Rsp {
    Rsp {
        route: labels.clone_value(),
        outcome: RspOutcome::Http(HttpRsp { status, error }),
    }
}

fn grpc_rsp(labels: &RouteLabels, status: Option<u16>, error: Option<ErrorKind>) -> Rsp {
    Rsp {
        route: labels.clone_value(),
        outcome: RspOutcome::Grpc(GrpcRsp { status, error }),
    }
}

#[test]
fn http_request_statuses() {
    let labels = test_labels();
    let mut metrics = RequestMetrics::new();
    let mut body_data = RequestBodyFamilies::new();

    let ok = http_rsp(&labels, Some(200), None);
    let no_content = http_rsp(&labels, Some(204), None);
    let unknown = http_rsp(&labels, None, Some(ErrorKind::Unknown));
    let mixed = http_rsp(&labels, Some(200), Some(ErrorKind::Unknown));

    // A 200 response whose body completes cleanly.
    let mut mon = ResponseMonitor::new_http(labels.clone_value(), 200);
    mon.on_eos(&mut metrics);
    assert_eq!(metrics.get_statuses(&ok), 1);

    // A 204 response whose body completes cleanly.
    let mut mon = ResponseMonitor::new_http(labels.clone_value(), 204);
    mon.on_eos(&mut metrics);
    assert_eq!(metrics.get_statuses(&no_content), 1);

    // The dispatch itself fails: no response head, no monitor.
    on_dispatch_failure(&labels, Proto::Http, &mut metrics);
    assert_eq!(metrics.get_statuses(&unknown), 1);

    // A 200 response whose body then fails: both status and error recorded.
    let mut mon = ResponseMonitor::new_http(labels.clone_value(), 200);
    mon.on_data(11, &mut body_data);
    mon.on_error(&mut metrics);
    assert_eq!(metrics.get_statuses(&mixed), 1);

    assert_eq!(metrics.get_statuses(&ok), 1);
    assert_eq!(metrics.get_statuses(&no_content), 1);
    assert_eq!(metrics.get_statuses(&unknown), 1);
}

#[test]
fn http_response_body_drop_on_eos() {
    let labels = test_labels();
    let mut metrics = RequestMetrics::new();
    let mut body_data = RequestBodyFamilies::new();

    let ok = http_rsp(&labels, Some(200), None);
    let err = http_rsp(&labels, Some(200), Some(ErrorKind::Unknown));

    let mut mon = ResponseMonitor::new_http(labels.clone_value(), 200);
    assert_eq!(metrics.get_statuses(&ok), 0);
    assert_eq!(metrics.get_statuses(&err), 0);

    // The single data frame "contents" is delivered, then end-of-stream.
    mon.on_data(8, &mut body_data);
    assert_eq!(metrics.get_statuses(&ok), 0);
    mon.on_eos(&mut metrics);
    assert_eq!(metrics.get_statuses(&ok), 1);
    assert_eq!(metrics.get_statuses(&err), 0);

    // Dropping the body after completion changes nothing.
    mon.on_drop(&mut metrics);
    assert_eq!(metrics.get_statuses(&ok), 1);
    assert_eq!(metrics.get_statuses(&err), 0);
}

#[test]
fn http_response_body_drop_early() {
    let labels = test_labels();
    let mut metrics = RequestMetrics::new();

    let ok = http_rsp(&labels, Some(200), None);
    let err = http_rsp(&labels, Some(200), Some(ErrorKind::Unknown));

    let mut mon = ResponseMonitor::new_http(labels.clone_value(), 200);
    assert_eq!(metrics.get_statuses(&ok), 0);
    assert_eq!(metrics.get_statuses(&err), 0);

    // The body is dropped before any terminal frame: an error, not a no-op.
    mon.on_drop(&mut metrics);
    assert_eq!(metrics.get_statuses(&ok), 0);
    assert_eq!(metrics.get_statuses(&err), 1);
}

#[test]
fn grpc_request_statuses_ok() {
    let labels = test_labels();
    let mut metrics = RequestMetrics::new();

    let ok = grpc_rsp(&labels, Some(0), None);

    let mut mon = ResponseMonitor::new_grpc(labels.clone_value());
    let status = b"0".to_vec();
    mon.on_trailers_value(Some(&status), &mut metrics);
    assert_eq!(metrics.get_statuses(&ok), 1);
}

#[test]
fn grpc_request_statuses_not_found() {
    let labels = test_labels();
    let mut metrics = RequestMetrics::new();

    let not_found = grpc_rsp(&labels, Some(5), None);

    let mut mon = ResponseMonitor::new_grpc(labels.clone_value());
    let status = b"5".to_vec();
    mon.on_trailers_value(Some(&status), &mut metrics);
    assert_eq!(metrics.get_statuses(&not_found), 1);
}

#[test]
fn grpc_request_statuses_error_response() {
    let labels = test_labels();
    let mut metrics = RequestMetrics::new();

    let unknown = grpc_rsp(&labels, None, Some(ErrorKind::Unknown));

    // The dispatch fails before a response head is produced.
    on_dispatch_failure(&labels, Proto::Grpc, &mut metrics);
    assert_eq!(metrics.get_statuses(&unknown), 1);
}

#[test]
fn grpc_request_statuses_error_body() {
    let labels = test_labels();
    let mut metrics = RequestMetrics::new();

    let unknown = grpc_rsp(&labels, None, Some(ErrorKind::Unknown));

    // The response body fails before any trailers arrive.
    let mut mon = ResponseMonitor::new_grpc(labels.clone_value());
    mon.on_error(&mut metrics);
    assert_eq!(metrics.get_statuses(&unknown), 1);
}

#[test]
fn grpc_response_body_drop_on_eos() {
    let labels = test_labels();
    let mut metrics = RequestMetrics::new();
    let mut body_data = RequestBodyFamilies::new();

    let ok = grpc_rsp(&labels, Some(0), None);
    let err = grpc_rsp(&labels, Some(0), Some(ErrorKind::Unknown));

    let mut mon = ResponseMonitor::new_grpc(labels.clone_value());
    assert_eq!(metrics.get_statuses(&ok), 0);
    assert_eq!(metrics.get_statuses(&err), 0);

    // Data frame "contents", then trailers carrying grpc-status 0.
    mon.on_data(8, &mut body_data);
    assert_eq!(metrics.get_statuses(&ok), 0);
    let status = b"0".to_vec();
    mon.on_trailers_value(Some(&status), &mut metrics);
    assert_eq!(metrics.get_statuses(&ok), 1);
    assert_eq!(metrics.get_statuses(&err), 0);

    // Dropping the finished body changes nothing.
    mon.on_drop(&mut metrics);
    assert_eq!(metrics.get_statuses(&ok), 1);
    assert_eq!(metrics.get_statuses(&err), 0);
}

#[test]
fn grpc_response_body_drop_early() {
    let labels = test_labels();
    let mut metrics = RequestMetrics::new();
    let mut body_data = RequestBodyFamilies::new();

    let ok = grpc_rsp(&labels, Some(0), None);
    let err = grpc_rsp(&labels, None, Some(ErrorKind::Unknown));

    let mut mon = ResponseMonitor::new_grpc(labels.clone_value());

    // A data frame arrives, but the body is dropped before its trailers.
    mon.on_data(8, &mut body_data);
    assert!(mon.is_streaming());
    assert_eq!(metrics.get_statuses(&ok), 0);
    assert_eq!(metrics.get_statuses(&err), 0);

    mon.on_drop(&mut metrics);
    assert_eq!(metrics.get_statuses(&ok), 0);
    assert_eq!(metrics.get_statuses(&err), 1);
}

#[test]
fn http_route_request_body_frames() {
    let labels = test_labels();
    let mut metrics = RequestMetrics::new();
    let mut body_data = RequestBodyFamilies::new();

    let d = body_data.metrics(&labels);
    assert_eq!(d.frames_total, 0);
    assert_eq!(d.frames_bytes, 0);

    let mut mon = ResponseMonitor::new_http(labels.clone_value(), 418);

    // Bytes are counted once polled: "milk", then "syrup".
    mon.on_data(4, &mut body_data);
    let d = body_data.metrics(&labels);
    assert_eq!(d.frames_total, 1);
    assert_eq!(d.frames_bytes, 4);

    mon.on_data(5, &mut body_data);
    let d = body_data.metrics(&labels);
    assert_eq!(d.frames_total, 2);
    assert_eq!(d.frames_bytes, 4 + 5);

    // Frames delivered after the terminal resolution are not counted.
    mon.on_eos(&mut metrics);
    mon.on_data(1024, &mut body_data);
    let d = body_data.metrics(&labels);
    assert_eq!(d.frames_total, 2);
    assert_eq!(d.frames_bytes, 9);
}

#[test]
fn idempotent_finalize_all_paths() {
    let labels = test_labels();
    let mut metrics = RequestMetrics::new();
    let mut body_data = RequestBodyFamilies::new();

    let ok = http_rsp(&labels, Some(200), None);
    let err = http_rsp(&labels, Some(200), Some(ErrorKind::Unknown));

    // Once completed, every further event is a no-op.
    let mut mon = ResponseMonitor::new_http(labels.clone_value(), 200);
    mon.on_eos(&mut metrics);
    mon.on_eos(&mut metrics);
    mon.on_error(&mut metrics);
    mon.on_drop(&mut metrics);
    mon.on_data(7, &mut body_data);
    assert_eq!(metrics.get_statuses(&ok), 1);
    assert_eq!(metrics.get_statuses(&err), 0);
    let d = body_data.metrics(&labels);
    assert_eq!(d.frames_total, 0);

    // Once dropped, every further event is a no-op too.
    let mut mon = ResponseMonitor::new_http(labels.clone_value(), 200);
    mon.on_drop(&mut metrics);
    mon.on_drop(&mut metrics);
    mon.on_eos(&mut metrics);
    assert_eq!(metrics.get_statuses(&ok), 1);
    assert_eq!(metrics.get_statuses(&err), 1);
}
