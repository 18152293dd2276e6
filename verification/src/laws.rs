//! Laws of the instrumentation layer, stated and proved once over the
//! state-machine model of [`crate::body`] and the label derivation of
//! [`crate::service`].

use vstd::prelude::*;

verus! {

use crate::ErrorKind;
use crate::body::{
    counts_updated, emitted, observed, rsp_key, step, BodyEvent, MonitorV, Proto, StreamState,
};
use crate::dns::{dns_labels_ok, is_digit_char, is_dns_label, is_dns_name, is_label_char, all_digits};
use crate::labels::RspV;
use crate::registry::RequestMetrics;
use crate::service::route_label_of;

/// An outcome is emitted exactly when the monitor leaves its streaming
/// state; once terminal, a monitor absorbs every further event without
/// change, emits nothing, and observes no more frames.
pub proof fn law_single_resolution(m: MonitorV, e: BodyEvent)
    ensures
        (emitted(m, e) is Some) == (m.state is Streaming && !(step(m, e).state is Streaming)),
        !(m.state is Streaming) ==> step(m, e) == m && emitted(m, e) is None && observed(
            m,
            e,
        ) is None,
{
}

/// Polling or dropping an already-finalized body never moves any counter:
/// every event observed by a terminal monitor leaves all counts unchanged.
pub proof fn law_idempotent_finalize(
    m: MonitorV,
    e: BodyEvent,
    before: RequestMetrics,
    after: RequestMetrics,
)
    requires
        !(m.state is Streaming),
        counts_updated(before, after, m, e),
    ensures
        forall|k: RspV| after.count(k) == before.count(k),
{
}

/// A completed HTTP exchange with response status `s` and no body error
/// increments the counter for `status: s, error: none` by exactly one, and
/// no other outcome counter changes.
pub proof fn law_http_completion(
    m: MonitorV,
    s: u16,
    before: RequestMetrics,
    after: RequestMetrics,
)
    requires
        m.proto is Http,
        m.state is Streaming,
        m.status == Some(s),
        counts_updated(before, after, m, BodyEvent::Eos),
        before.count(rsp_key(m, Some(s), None)) < u64::MAX,
    ensures
        step(m, BodyEvent::Eos).state is Completed,
        after.count(rsp_key(m, Some(s), None)) == before.count(rsp_key(m, Some(s), None)) + 1,
        forall|k: RspV| k != rsp_key(m, Some(s), None) ==> after.count(k) == before.count(k),
{
}

/// A response body that fails while being read increments the counter whose
/// labels pair the already-observed status `s` with the catch-all error.
pub proof fn law_http_body_error(
    m: MonitorV,
    s: u16,
    before: RequestMetrics,
    after: RequestMetrics,
)
    requires
        m.proto is Http,
        m.state is Streaming,
        m.status == Some(s),
        counts_updated(before, after, m, BodyEvent::Failed),
        before.count(rsp_key(m, Some(s), Some(ErrorKind::Unknown))) < u64::MAX,
    ensures
        step(m, BodyEvent::Failed).state is Errored,
        after.count(rsp_key(m, Some(s), Some(ErrorKind::Unknown))) == before.count(
            rsp_key(m, Some(s), Some(ErrorKind::Unknown)),
        ) + 1,
        forall|k: RspV|
            k != rsp_key(m, Some(s), Some(ErrorKind::Unknown)) ==> after.count(k) == before.count(
                k,
            ),
{
}

/// A response body dropped before end-of-stream increments the error-labeled
/// counter by one and leaves the success-labeled counter unchanged.
pub proof fn law_drop_is_an_error(
    m: MonitorV,
    before: RequestMetrics,
    after: RequestMetrics,
)
    requires
        m.state is Streaming,
        counts_updated(before, after, m, BodyEvent::Abandoned),
        before.count(rsp_key(m, m.status, Some(ErrorKind::Unknown))) < u64::MAX,
    ensures
        step(m, BodyEvent::Abandoned).state is Dropped,
        after.count(rsp_key(m, m.status, Some(ErrorKind::Unknown))) == before.count(
            rsp_key(m, m.status, Some(ErrorKind::Unknown)),
        ) + 1,
        after.count(rsp_key(m, m.status, None)) == before.count(rsp_key(m, m.status, None)),
{
}

/// A gRPC exchange whose trailers carry a status value increments the
/// counter for that decoded code with no error — code 0 (success) and
/// non-zero codes alike — while trailers without a `grpc-status` field, like
/// a body dropped before its trailers, count as status-less errors.
pub proof fn law_grpc_trailers(
    m: MonitorV,
    v: Option<Seq<u8>>,
    before: RequestMetrics,
    after: RequestMetrics,
)
    requires
        m.proto is Grpc,
        m.state is Streaming,
        counts_updated(before, after, m, BodyEvent::Trailers(v)),
        before.count(
            match v {
                Some(b) => rsp_key(m, Some(crate::outcome::grpc_code_of(b)), None),
                None => rsp_key(m, None, Some(ErrorKind::Unknown)),
            },
        ) < u64::MAX,
    ensures
        match v {
            Some(b) => {
                &&& step(m, BodyEvent::Trailers(v)).state is Completed
                &&& after.count(rsp_key(m, Some(crate::outcome::grpc_code_of(b)), None))
                    == before.count(rsp_key(m, Some(crate::outcome::grpc_code_of(b)), None)) + 1
            },
            None => {
                &&& step(m, BodyEvent::Trailers(v)).state is Errored
                &&& after.count(rsp_key(m, None, Some(ErrorKind::Unknown))) == before.count(
                    rsp_key(m, None, Some(ErrorKind::Unknown)),
                ) + 1
            },
        },
{
}

/// A gRPC body dropped before its trailers arrive increments the counter for
/// no status and the catch-all error.
pub proof fn law_grpc_drop_before_trailers(
    m: MonitorV,
    before: RequestMetrics,
    after: RequestMetrics,
)
    requires
        m.proto is Grpc,
        m.state is Streaming,
        m.status is None,
        counts_updated(before, after, m, BodyEvent::Abandoned),
        before.count(rsp_key(m, None, Some(ErrorKind::Unknown))) < u64::MAX,
    ensures
        step(m, BodyEvent::Abandoned).state is Dropped,
        after.count(rsp_key(m, None, Some(ErrorKind::Unknown))) == before.count(
            rsp_key(m, None, Some(ErrorKind::Unknown)),
        ) + 1,
{
}

/// A terminal resolution always sets at least one of status and error, for
/// any monitor whose HTTP status was fixed at head time (as both
/// constructors guarantee).
pub proof fn law_terminal_sets_status_or_error(m: MonitorV, e: BodyEvent)
    requires
        m.proto is Http ==> m.status is Some,
    ensures
        match emitted(m, e) {
            Some(k) => match k.outcome {
                crate::labels::RspOutcome::Http(h) => h.status is Some || h.error is Some,
                crate::labels::RspOutcome::Grpc(g) => g.status is Some || g.error is Some,
            },
            None => true,
        },
{
}

/// With hostname export disabled, no request is ever attributed to a
/// hostname, whatever its authority.
pub proof fn law_hostname_export_disabled(
    parent: Seq<char>,
    route: Seq<char>,
    host: Option<Seq<char>>,
)
    ensures
        route_label_of(parent, route, false, host).hostname is None,
{
}

/// With hostname export enabled, a request is attributed to its host exactly
/// when that host is a valid DNS name — so two requests with the same host
/// carry the same hostname label, whatever their paths.
pub proof fn law_hostname_attribution(parent: Seq<char>, route: Seq<char>, h: Seq<char>)
    ensures
        route_label_of(parent, route, true, Some(h)).hostname == (if is_dns_name(h) {
            Some(h)
        } else {
            None::<Seq<char>>
        }),
{
}

/// A character that may stand nowhere in a DNS name (neither a label
/// character nor a dot) invalidates the whole name, wherever it stands.
proof fn lemma_bad_char_anywhere(s: Seq<char>, p: int)
    requires
        0 <= p < s.len(),
        !is_label_char(s[p]),
        s[p] != '.',
    ensures
        !dns_labels_ok(s),
    decreases s.len(),
{
    s.index_of_first_ensures('.');
    match s.index_of_first('.') {
        Some(i) => {
            if p < i {
                assert(s.take(i)[p] == s[p]);
                assert(!is_dns_label(s.take(i)));
            } else {
                assert(p > i);
                assert(s.skip(i + 1)[p - i - 1] == s[p]);
                lemma_bad_char_anywhere(s.skip(i + 1), p - i - 1);
            }
        },
        None => {
            assert(!is_dns_label(s)) by {
                if is_dns_label(s) {
                    assert(is_label_char(s[p]));
                }
            }
        },
    }
}

/// A host with a colon in it (an IPv6 literal, bracketed or not, or a
/// host:port pair) is no DNS name and is never attributed.
pub proof fn law_colon_host_unlabeled(s: Seq<char>)
    requires
        exists|i: int| 0 <= i < s.len() && s[i] == ':',
    ensures
        !is_dns_name(s),
{
    let p = choose|i: int| 0 <= i < s.len() && s[i] == ':';
    assert(!is_label_char(s[p]));
    lemma_bad_char_anywhere(s, p);
}

proof fn lemma_numeric_not_dns(s: Seq<char>)
    requires
        forall|i: int| 0 <= i < s.len() ==> (is_digit_char(#[trigger] s[i]) || s[i] == '.'),
    ensures
        !dns_labels_ok(s),
    decreases s.len(),
{
    s.index_of_first_ensures('.');
    match s.index_of_first('.') {
        Some(i) => {
            assert(forall|k: int|
                0 <= k < s.skip(i + 1).len() ==> #[trigger] s.skip(i + 1)[k] == s[i + 1 + k]);
            lemma_numeric_not_dns(s.skip(i + 1));
        },
        None => {
            if s.len() > 0 {
                assert(forall|i: int| 0 <= i < s.len() ==> is_digit_char(#[trigger] s[i])) by {
                    assert(forall|i: int| 0 <= i < s.len() ==> s[i] != '.');
                }
                assert(all_digits(s));
            }
        },
    }
}

/// A host made of digits and dots alone (an IPv4 literal such as
/// `192.0.2.1`) is no DNS name and is never attributed.
pub proof fn law_numeric_host_unlabeled(s: Seq<char>)
    requires
        forall|i: int| 0 <= i < s.len() ==> (is_digit_char(#[trigger] s[i]) || s[i] == '.'),
    ensures
        !is_dns_name(s),
{
    lemma_numeric_not_dns(s);
}

} // verus!
