//! Per-route response-outcome classification and metrics instrumentation.
//!
//! This library wraps each dispatched HTTP or gRPC exchange, observes the
//! (possibly streaming) response body, and records exactly-once, correctly
//! labeled outcome counters and per-frame size observations — whether the
//! body completes cleanly, fails mid-stream, or is abandoned by its consumer.

use vstd::prelude::*;

pub mod accept;
pub mod body;
pub mod dns;
pub mod http_ext;
pub mod labels;
pub mod laws;
pub mod outcome;
pub mod registry;
pub mod service;
pub mod transport;
mod strutil;

pub use strutil::str_eq;

verus! {

/// A stream-level failure classification. Every kind of failure (transport
/// error, protocol violation, abandonment before completion) currently
/// normalizes to `Unknown`; the enumeration is open for later refinement.
#[derive(Clone, Copy, PartialEq, Eq, Structural, Debug)]
pub enum ErrorKind {
    Unknown,
}

} // verus!
