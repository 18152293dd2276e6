//! Session protocols a forwarded connection may declare.

use vstd::prelude::*;

verus! {

/// Marker for an HTTP/1 session.
#[derive(Clone, Copy, Debug, PartialEq, Eq, Structural)]
pub struct Http1 {}

/// Marker for an HTTP/2 session.
#[derive(Clone, Copy, Debug, PartialEq, Eq, Structural)]
pub struct Http2 {}

/// The declared session protocol.
#[derive(Clone, Copy, Debug, PartialEq, Eq, Structural)]
pub enum Kind {
    Http1(Http1),
    Http2(Http2),
}

} // verus!
