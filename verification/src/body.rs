//! Body instrumentation: a per-exchange state machine that observes the
//! response body and drives exactly one terminal outcome resolution.
//!
//! A monitor starts in `Streaming` and moves to exactly one of `Completed`,
//! `Errored` or `Dropped`; the transition out of `Streaming` records exactly
//! one outcome counter, and any further event is a no-op.

use vstd::prelude::*;

verus! {

use crate::ErrorKind;
use crate::http_ext::{grpc_status_trailer, header_values};
use crate::labels::{GrpcRsp, HttpRsp, RouteLabels, RouteLabelsV, Rsp, RspOutcome, RspV};
use crate::outcome::grpc_code_of;
use crate::outcome::parse_grpc_code;
use crate::registry::{
    observe_frame, sat_inc, RequestBodyFamilies, RequestMetrics,
};

/// The `grpc-status` value a trailers frame carries, if any.
pub open spec fn grpc_status_of(trailers: http::HeaderMap) -> Option<Seq<u8>> {
    if header_values(trailers).contains_key("grpc-status"@) {
        Some(header_values(trailers)["grpc-status"@])
    } else {
        None
    }
}

/// The protocol whose outcome convention an exchange follows.
#[derive(Clone, Copy, Debug, PartialEq, Eq, Structural)]
pub enum Proto {
    Http,
    Grpc,
}

/// Progress of one instrumented response body. `Streaming` is the only
/// non-terminal state.
#[derive(Clone, Copy, Debug, PartialEq, Eq, Structural)]
pub enum StreamState {
    Streaming,
    Completed,
    Errored,
    Dropped,
}

/// Observes one response body and finalizes its outcome exactly once.
pub struct ResponseMonitor {
    pub labels: RouteLabels,
    pub proto: Proto,
    pub status: Option<u16>,
    pub state: StreamState,
}

/// Mathematical model of [`ResponseMonitor`].
pub struct MonitorV {
    pub labels: RouteLabelsV,
    pub proto: Proto,
    pub status: Option<u16>,
    pub state: StreamState,
}

impl View for ResponseMonitor {
    type V = MonitorV;

    open spec fn view(&self) -> MonitorV {
        MonitorV {
            labels: self.labels@,
            proto: self.proto,
            status: self.status,
            state: self.state,
        }
    }
}

/// One observation made of a streaming body: a data frame of a given size, a
/// trailers frame carrying an optional `grpc-status` value, a failure while
/// producing a frame, a clean end of stream, or abandonment by the consumer.
pub enum BodyEvent {
    Data(nat),
    Trailers(Option<Seq<u8>>),
    Failed,
    Eos,
    Abandoned,
}

/// The outcome label shape used by the monitor's protocol.
pub open spec fn outcome_of(proto: Proto, status: Option<u16>, error: Option<ErrorKind>) -> RspOutcome {
    match proto {
        Proto::Http => RspOutcome::Http(HttpRsp { status, error }),
        Proto::Grpc => RspOutcome::Grpc(GrpcRsp { status, error }),
    }
}

/// The counter key a monitor resolves to for a given status and error.
pub open spec fn rsp_key(m: MonitorV, status: Option<u16>, error: Option<ErrorKind>) -> RspV {
    RspV { route: m.labels, outcome: outcome_of(m.proto, status, error) }
}

/// The monitor after observing one event. Terminal states absorb every
/// event; while streaming:
/// - data frames do not change the monitor;
/// - a gRPC trailers frame latches the decoded status and completes, or
///   resolves as an error when no `grpc-status` field is present;
/// - HTTP trailers carry no outcome and are passed through;
/// - a clean end of stream completes an HTTP exchange, while ending a gRPC
///   stream without trailers is itself evidence of an error;
/// - a frame failure resolves as an error, and abandonment as dropped.
pub open spec fn step(m: MonitorV, e: BodyEvent) -> MonitorV {
    if !(m.state is Streaming) {
        m
    } else {
        match e {
            BodyEvent::Data(_) => m,
            BodyEvent::Trailers(v) => match m.proto {
                Proto::Http => m,
                Proto::Grpc => match v {
                    Some(b) => MonitorV {
                        status: Some(grpc_code_of(b)),
                        state: StreamState::Completed,
                        ..m
                    },
                    None => MonitorV { state: StreamState::Errored, ..m },
                },
            },
            BodyEvent::Eos => match m.proto {
                Proto::Http => MonitorV { state: StreamState::Completed, ..m },
                Proto::Grpc => MonitorV { state: StreamState::Errored, ..m },
            },
            BodyEvent::Failed => MonitorV { state: StreamState::Errored, ..m },
            BodyEvent::Abandoned => MonitorV { state: StreamState::Dropped, ..m },
        }
    }
}

/// The counter key recorded when a monitor observes one event, or `None`
/// when the event does not finalize the exchange. A terminal monitor never
/// records again.
pub open spec fn emitted(m: MonitorV, e: BodyEvent) -> Option<RspV> {
    if !(m.state is Streaming) {
        None
    } else {
        match e {
            BodyEvent::Data(_) => None,
            BodyEvent::Trailers(v) => match m.proto {
                Proto::Http => None,
                Proto::Grpc => match v {
                    Some(b) => Some(rsp_key(m, Some(grpc_code_of(b)), None)),
                    None => Some(rsp_key(m, None, Some(ErrorKind::Unknown))),
                },
            },
            BodyEvent::Eos => match m.proto {
                Proto::Http => Some(rsp_key(m, m.status, None)),
                Proto::Grpc => Some(rsp_key(m, None, Some(ErrorKind::Unknown))),
            },
            BodyEvent::Failed => Some(rsp_key(m, m.status, Some(ErrorKind::Unknown))),
            BodyEvent::Abandoned => Some(rsp_key(m, m.status, Some(ErrorKind::Unknown))),
        }
    }
}

/// The frame size recorded when a monitor observes one event, or `None` when
/// nothing is recorded: only data frames of a still-streaming body count.
pub open spec fn observed(m: MonitorV, e: BodyEvent) -> Option<nat> {
    if m.state is Streaming {
        match e {
            BodyEvent::Data(n) => Some(n),
            _ => None,
        }
    } else {
        None
    }
}

/// How the outcome counters change when a monitor observes one event: the
/// emitted key (if any) grows by one, and every other counter is unchanged.
pub open spec fn counts_updated(
    before: RequestMetrics,
    after: RequestMetrics,
    m: MonitorV,
    e: BodyEvent,
) -> bool {
    match emitted(m, e) {
        Some(key) => after.count(key) == sat_inc(before.count(key)) && (forall|k: RspV|
            k != key ==> after.count(k) == before.count(k)),
        None => forall|k: RspV| after.count(k) == before.count(k),
    }
}

/// How the frame-size observations change when a monitor observes one event:
/// the monitor's route grows by the observed frame (if any), and every other
/// route is unchanged.
pub open spec fn body_data_updated(
    before: RequestBodyFamilies,
    after: RequestBodyFamilies,
    m: MonitorV,
    e: BodyEvent,
) -> bool {
    match observed(m, e) {
        Some(n) => after.data(m.labels) == observe_frame(before.data(m.labels), n) && (
        forall|k: RouteLabelsV| k != m.labels ==> after.data(k) == before.data(k)),
        None => forall|k: RouteLabelsV| after.data(k) == before.data(k),
    }
}

impl ResponseMonitor {
    /// A monitor for an HTTP response whose head carried `status`.
    pub fn new_http(labels: RouteLabels, status: u16) -> (m: Self)
        ensures
            m@ == (MonitorV {
                labels: labels@,
                proto: Proto::Http,
                status: Some(status),
                state: StreamState::Streaming,
            }),
    {
        ResponseMonitor {
            labels,
            proto: Proto::Http,
            status: Some(status),
            state: StreamState::Streaming,
        }
    }

    /// A monitor for a gRPC response; the status is not known until a
    /// trailers frame arrives.
    pub fn new_grpc(labels: RouteLabels) -> (m: Self)
        ensures
            m@ == (MonitorV {
                labels: labels@,
                proto: Proto::Grpc,
                status: None,
                state: StreamState::Streaming,
            }),
    {
        ResponseMonitor {
            labels,
            proto: Proto::Grpc,
            status: None,
            state: StreamState::Streaming,
        }
    }

    /// Whether the monitor is still streaming (no terminal resolution yet).
    pub fn is_streaming(&self) -> (r: bool)
        ensures
            r == (self@.state is Streaming),
    {
        match self.state {
            StreamState::Streaming => true,
            _ => false,
        }
    }

    /// Records one delivered data frame of `len` bytes. Frames delivered
    /// after the terminal resolution are not counted.
    pub fn on_data(&mut self, len: u64, body_data: &mut RequestBodyFamilies)
        requires
            old(body_data).wf(),
        ensures
            final(body_data).wf(),
            final(self)@ == step(old(self)@, BodyEvent::Data(len as nat)),
            body_data_updated(*old(body_data), *final(body_data), old(self)@, BodyEvent::Data(len as nat)),
    {
        match self.state {
            StreamState::Streaming => {
                body_data.observe(&self.labels, len);
            },
            _ => (),
        }
    }

    /// Records the terminal outcome for a trailers frame whose `grpc-status`
    /// field held `v` (or carried no such field, for `None`).
    pub fn on_trailers_value(&mut self, v: Option<&Vec<u8>>, metrics: &mut RequestMetrics)
        requires
            old(metrics).wf(),
        ensures
            final(metrics).wf(),
            final(self)@ == step(old(self)@, BodyEvent::Trailers(match v {
                Some(b) => Some(b@),
                None => None,
            })),
            counts_updated(*old(metrics), *final(metrics), old(self)@, BodyEvent::Trailers(
                match v {
                    Some(b) => Some(b@),
                    None => None,
                },
            )),
    {
        match self.state {
            StreamState::Streaming => match self.proto {
                Proto::Http => (),
                Proto::Grpc => match v {
                    Some(b) => {
                        let code = parse_grpc_code(b.as_slice());
                        let key = Rsp {
                            route: self.labels.clone_value(),
                            outcome: RspOutcome::Grpc(GrpcRsp {
                                status: Some(code),
                                error: None,
                            }),
                        };
                        metrics.record(&key);
                        self.status = Some(code);
                        self.state = StreamState::Completed;
                    },
                    None => {
                        let key = Rsp {
                            route: self.labels.clone_value(),
                            outcome: RspOutcome::Grpc(GrpcRsp {
                                status: None,
                                error: Some(ErrorKind::Unknown),
                            }),
                        };
                        metrics.record(&key);
                        self.state = StreamState::Errored;
                    },
                },
            },
            _ => (),
        }
    }

    /// Records the terminal outcome for a trailers frame, reading its
    /// `grpc-status` field.
    pub fn on_trailers(&mut self, trailers: &http::HeaderMap, metrics: &mut RequestMetrics)
        requires
            old(metrics).wf(),
        ensures
            final(metrics).wf(),
            final(self)@ == step(old(self)@, BodyEvent::Trailers(grpc_status_of(*trailers))),
            counts_updated(
                *old(metrics),
                *final(metrics),
                old(self)@,
                BodyEvent::Trailers(grpc_status_of(*trailers)),
            ),
    {
        let v = grpc_status_trailer(trailers);
        match v {
            Some(b) => self.on_trailers_value(Some(&b), metrics),
            None => self.on_trailers_value(None, metrics),
        }
    }

    /// Records the terminal outcome for a clean end of stream.
    pub fn on_eos(&mut self, metrics: &mut RequestMetrics)
        requires
            old(metrics).wf(),
        ensures
            final(metrics).wf(),
            final(self)@ == step(old(self)@, BodyEvent::Eos),
            counts_updated(*old(metrics), *final(metrics), old(self)@, BodyEvent::Eos),
    {
        match self.state {
            StreamState::Streaming => match self.proto {
                Proto::Http => {
                    let key = Rsp {
                        route: self.labels.clone_value(),
                        outcome: RspOutcome::Http(HttpRsp { status: self.status, error: None }),
                    };
                    metrics.record(&key);
                    self.state = StreamState::Completed;
                },
                Proto::Grpc => {
                    let key = Rsp {
                        route: self.labels.clone_value(),
                        outcome: RspOutcome::Grpc(GrpcRsp {
                            status: None,
                            error: Some(ErrorKind::Unknown),
                        }),
                    };
                    metrics.record(&key);
                    self.state = StreamState::Errored;
                },
            },
            _ => (),
        }
    }

    /// Records the terminal outcome for a failure surfaced while producing a
    /// frame. The status is preserved if already known.
    pub fn on_error(&mut self, metrics: &mut RequestMetrics)
        requires
            old(metrics).wf(),
        ensures
            final(metrics).wf(),
            final(self)@ == step(old(self)@, BodyEvent::Failed),
            counts_updated(*old(metrics), *final(metrics), old(self)@, BodyEvent::Failed),
    {
        match self.state {
            StreamState::Streaming => {
                let key = Rsp {
                    route: self.labels.clone_value(),
                    outcome: match self.proto {
                        Proto::Http => RspOutcome::Http(HttpRsp {
                            status: self.status,
                            error: Some(ErrorKind::Unknown),
                        }),
                        Proto::Grpc => RspOutcome::Grpc(GrpcRsp {
                            status: self.status,
                            error: Some(ErrorKind::Unknown),
                        }),
                    },
                };
                metrics.record(&key);
                self.state = StreamState::Errored;
            },
            _ => (),
        }
    }

    /// Records the terminal outcome for a body abandoned by its consumer
    /// before a terminal frame was observed. Abandonment is an error, not a
    /// no-op: it must be called from every exit path that discards a
    /// still-streaming body.
    pub fn on_drop(&mut self, metrics: &mut RequestMetrics)
        requires
            old(metrics).wf(),
        ensures
            final(metrics).wf(),
            final(self)@ == step(old(self)@, BodyEvent::Abandoned),
            counts_updated(*old(metrics), *final(metrics), old(self)@, BodyEvent::Abandoned),
    {
        match self.state {
            StreamState::Streaming => {
                let key = Rsp {
                    route: self.labels.clone_value(),
                    outcome: match self.proto {
                        Proto::Http => RspOutcome::Http(HttpRsp {
                            status: self.status,
                            error: Some(ErrorKind::Unknown),
                        }),
                        Proto::Grpc => RspOutcome::Grpc(GrpcRsp {
                            status: self.status,
                            error: Some(ErrorKind::Unknown),
                        }),
                    },
                };
                metrics.record(&key);
                self.state = StreamState::Dropped;
            },
            _ => (),
        }
    }
}

} // verus!
