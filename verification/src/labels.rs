//! Label model: immutable value types identifying a route and an outcome.
//!
//! A [`RouteLabels`] names the matched route (parent reference, route
//! reference, and an optional per-request hostname). An [`Rsp`] pairs those
//! route labels with a protocol-specific outcome, and is the key under which
//! a terminal result is counted.

use vstd::prelude::*;

verus! {

use crate::ErrorKind;
use crate::strutil::str_eq;

/// Opaque metadata naming the logical destination of a route.
#[derive(Clone, Debug)]
pub struct ParentRef {
    pub name: String,
}

/// Opaque metadata naming the matched route.
#[derive(Clone, Debug)]
pub struct RouteRef {
    pub name: String,
}

/// Identifying labels of a matched route: the parent and route references
/// and, when hostname export is enabled and the request's host parses as a
/// DNS name, that hostname.
#[derive(Clone, Debug)]
pub struct RouteLabels {
    pub parent: ParentRef,
    pub route: RouteRef,
    pub hostname: Option<String>,
}

/// Mathematical model of [`RouteLabels`].
pub struct RouteLabelsV {
    pub parent: Seq<char>,
    pub route: Seq<char>,
    pub hostname: Option<Seq<char>>,
}

impl View for RouteLabels {
    type V = RouteLabelsV;

    open spec fn view(&self) -> RouteLabelsV {
        RouteLabelsV {
            parent: self.parent.name@,
            route: self.route.name@,
            hostname: match self.hostname {
                Some(h) => Some(h@),
                None => None,
            },
        }
    }
}

/// Outcome of an HTTP exchange: the response status, if a response head was
/// produced, and the stream-level error, if any. A terminal resolution always
/// sets at least one of the two.
#[derive(Clone, Copy, Debug)]
pub struct HttpRsp {
    pub status: Option<u16>,
    pub error: Option<ErrorKind>,
}

/// Outcome of a gRPC exchange: the status code carried in the trailers, if a
/// trailers frame with one was observed, and the stream-level error, if any.
#[derive(Clone, Copy, Debug)]
pub struct GrpcRsp {
    pub status: Option<u16>,
    pub error: Option<ErrorKind>,
}

/// Protocol-specific outcome of one exchange.
#[derive(Clone, Copy, Debug)]
pub enum RspOutcome {
    Http(HttpRsp),
    Grpc(GrpcRsp),
}

/// Composite outcome-counter key: route labels plus protocol outcome.
#[derive(Clone, Debug)]
pub struct Rsp {
    pub route: RouteLabels,
    pub outcome: RspOutcome,
}

/// Mathematical model of [`Rsp`]. The outcome is plain data and is carried
/// unchanged.
pub struct RspV {
    pub route: RouteLabelsV,
    pub outcome: RspOutcome,
}

impl View for Rsp {
    type V = RspV;

    open spec fn view(&self) -> RspV {
        RspV { route: self.route@, outcome: self.outcome }
    }
}

impl RouteLabels {
    /// An equal route-label value, as a fresh copy.
    pub fn clone_value(&self) -> (r: Self)
        ensures
            r@ == self@,
    {
        RouteLabels {
            parent: ParentRef { name: self.parent.name.as_str().to_owned() },
            route: RouteRef { name: self.route.name.as_str().to_owned() },
            hostname: match &self.hostname {
                Some(h) => Some(h.as_str().to_owned()),
                None => None,
            },
        }
    }
}

impl Rsp {
    /// An equal outcome key, as a fresh copy.
    pub fn clone_value(&self) -> (r: Self)
        ensures
            r@ == self@,
    {
        Rsp { route: self.route.clone_value(), outcome: self.outcome }
    }
}

fn opt_u16_eq(a: Option<u16>, b: Option<u16>) -> (r: bool)
    ensures
        r == (a == b),
{
    match (a, b) {
        (None, None) => true,
        (Some(x), Some(y)) => x == y,
        _ => false,
    }
}

fn opt_error_eq(a: Option<ErrorKind>, b: Option<ErrorKind>) -> (r: bool)
    ensures
        r == (a == b),
{
    match (a, b) {
        (None, None) => true,
        (Some(x), Some(y)) => {
            proof {
                assert(x is Unknown && y is Unknown);
            }
            true
        },
        _ => false,
    }
}

fn opt_str_eq(a: &Option<String>, b: &Option<String>) -> (r: bool)
    ensures
        r == (match (a, b) {
            (Some(x), Some(y)) => Some(x@) == Some(y@),
            (None, None) => true,
            _ => false,
        }),
{
    match (a, b) {
        (None, None) => true,
        (Some(x), Some(y)) => str_eq(x.as_str(), y.as_str()),
        _ => false,
    }
}

/// Compares two route-label values for equality of their models.
pub fn route_labels_eq(a: &RouteLabels, b: &RouteLabels) -> (r: bool)
    ensures
        r == (a@ == b@),
{
    let parent_eq = str_eq(a.parent.name.as_str(), b.parent.name.as_str());
    let route_eq = str_eq(a.route.name.as_str(), b.route.name.as_str());
    let host_eq = opt_str_eq(&a.hostname, &b.hostname);
    parent_eq && route_eq && host_eq
}

fn outcome_eq(a: &RspOutcome, b: &RspOutcome) -> (r: bool)
    ensures
        r == (*a == *b),
{
    match (a, b) {
        (RspOutcome::Http(x), RspOutcome::Http(y)) => {
            opt_u16_eq(x.status, y.status) && opt_error_eq(x.error, y.error)
        },
        (RspOutcome::Grpc(x), RspOutcome::Grpc(y)) => {
            opt_u16_eq(x.status, y.status) && opt_error_eq(x.error, y.error)
        },
        _ => false,
    }
}

/// Compares two outcome-counter keys for equality of their models.
pub fn rsp_eq(a: &Rsp, b: &Rsp) -> (r: bool)
    ensures
        r == (a@ == b@),
{
    route_labels_eq(&a.route, &b.route) && outcome_eq(&a.outcome, &b.outcome)
}

} // verus!
