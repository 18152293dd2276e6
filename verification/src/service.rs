//! Route service decoration: deriving the labels of an exchange when it is
//! dispatched, and recording dispatch-level failures.
//!
//! On a successful dispatch the caller wraps the response body with a
//! [`ResponseMonitor`](crate::body::ResponseMonitor); when the inner service
//! fails before producing a response head, no monitor is ever created and
//! the outcome is recorded here directly.

use vstd::prelude::*;

verus! {

use crate::ErrorKind;
use crate::body::{outcome_of, Proto};
use crate::dns::{dns_hostname, is_dns_name};
use crate::http_ext::uri_host;
use crate::labels::{ParentRef, RouteLabels, RouteLabelsV, RouteRef, Rsp, RspV};
use crate::registry::{sat_inc, RequestMetrics};

/// The route labels derived for a request: the hostname is attributed only
/// when the route exports hostname labels and the request's host parses as a
/// DNS name; an unparseable or IP-literal host is silently unlabeled.
pub open spec fn route_label_of(
    parent: Seq<char>,
    route: Seq<char>,
    export_hostname_labels: bool,
    host: Option<Seq<char>>,
) -> RouteLabelsV {
    RouteLabelsV {
        parent,
        route,
        hostname: match host {
            Some(h) => if export_hostname_labels && is_dns_name(h) {
                Some(h)
            } else {
                None
            },
            None => None,
        },
    }
}

/// Derives the labels of an exchange from its route and the host component
/// of its request target.
pub fn route_labels_from_host(
    parent: &ParentRef,
    route: &RouteRef,
    export_hostname_labels: bool,
    host: Option<&str>,
) -> (r: RouteLabels)
    ensures
        r@ == route_label_of(
            parent.name@,
            route.name@,
            export_hostname_labels,
            match host {
                Some(h) => Some(h@),
                None => None,
            },
        ),
{
    let hostname: Option<String> = match host {
        Some(h) => {
            if export_hostname_labels {
                dns_hostname(h)
            } else {
                None
            }
        },
        None => None,
    };
    RouteLabels {
        parent: ParentRef { name: parent.name.as_str().to_owned() },
        route: RouteRef { name: route.name.as_str().to_owned() },
        hostname,
    }
}

/// Derives the labels of an exchange from its route and request target URI.
/// Whatever host component the URI turns out to carry, the hostname label is
/// only ever set with hostname export on, and then only to a valid DNS name.
pub fn route_labels_from_uri(
    parent: &ParentRef,
    route: &RouteRef,
    export_hostname_labels: bool,
    target: Option<&http::Uri>,
) -> (r: RouteLabels)
    ensures
        r@.parent == parent.name@,
        r@.route == route.name@,
        match r@.hostname {
            Some(h) => export_hostname_labels && is_dns_name(h),
            None => true,
        },
        exists|host: Option<Seq<char>>|
            r@ == route_label_of(parent.name@, route.name@, export_hostname_labels, host),
{
    let host: Option<String> = match target {
        Some(u) => uri_host(u),
        None => None,
    };
    let host_ref: Option<&str> = match &host {
        Some(h) => Some(h.as_str()),
        None => None,
    };
    let r = route_labels_from_host(parent, route, export_hostname_labels, host_ref);
    proof {
        let ghost h = match host {
            Some(h) => Some(h@),
            None => None,
        };
        assert(r@ == route_label_of(parent.name@, route.name@, export_hostname_labels, h));
    }
    r
}

/// The key under which a dispatch-level failure is counted: no status was
/// ever produced, and the error is the catch-all kind.
pub open spec fn dispatch_failure_key(labels: RouteLabelsV, proto: Proto) -> RspV {
    RspV { route: labels, outcome: outcome_of(proto, None, Some(ErrorKind::Unknown)) }
}

/// Records the outcome of a dispatch that failed before any response head
/// was produced. The caller re-raises the failure unchanged; no body monitor
/// exists for such an exchange.
pub fn on_dispatch_failure(labels: &RouteLabels, proto: Proto, metrics: &mut RequestMetrics)
    requires
        old(metrics).wf(),
    ensures
        final(metrics).wf(),
        final(metrics).count(dispatch_failure_key(labels@, proto)) == sat_inc(
            old(metrics).count(dispatch_failure_key(labels@, proto)),
        ),
        forall|k: RspV|
            k != dispatch_failure_key(labels@, proto) ==> final(metrics).count(k) == old(
                metrics,
            ).count(k),
{
    let key = Rsp {
        route: labels.clone_value(),
        outcome: match proto {
            Proto::Http => crate::labels::RspOutcome::Http(crate::labels::HttpRsp {
                status: None,
                error: Some(ErrorKind::Unknown),
            }),
            Proto::Grpc => crate::labels::RspOutcome::Grpc(crate::labels::GrpcRsp {
                status: None,
                error: Some(ErrorKind::Unknown),
            }),
        },
    };
    metrics.record(&key);
}

} // verus!
