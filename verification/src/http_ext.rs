//! Trusted declarations for the `http` crate types this library reads:
//! request target URIs and trailer header maps.

use vstd::prelude::*;

verus! {

#[verifier::external_type_specification]
#[verifier::external_body]
pub struct ExUri(http::Uri);

#[verifier::external_type_specification]
#[verifier::external_body]
pub struct ExHeaderValue(http::HeaderValue);

#[verifier::external_type_specification]
#[verifier::external_body]
#[verifier::reject_recursive_types(T)]
pub struct ExHeaderMap<T>(http::HeaderMap<T>);

/// The field values a header map holds, keyed by lowercase header name; for
/// a repeated header, its first value.
pub uninterp spec fn header_values(t: http::HeaderMap) -> Map<Seq<char>, Seq<u8>>;

/// Relies on `http::HeaderMap::get` (and `HeaderValue::as_bytes`): the first
/// value of the `grpc-status` trailer field, or `None` when the trailers
/// carry no such field.
#[verifier::external_body]
pub fn grpc_status_trailer(t: &http::HeaderMap) -> (r: Option<Vec<u8>>)
    ensures
        match r {
            Some(v) => header_values(*t).contains_key("grpc-status"@) && v@ == header_values(
                *t,
            )["grpc-status"@],
            None => !header_values(*t).contains_key("grpc-status"@),
        },
{
    t.get("grpc-status").map(|v| v.as_bytes().to_vec())
}

/// Relies on `http::Uri::host`: the host component of the URI's authority
/// (for an IPv6 literal, still inside its square brackets), or `None` when
/// the URI has no authority. Nothing is assumed of which string comes back.
#[verifier::external_body]
pub fn uri_host(u: &http::Uri) -> (r: Option<String>) {
    u.host().map(|h| h.to_owned())
}

} // verus!
