//! Protocol-specific outcome resolution.
//!
//! HTTP outcomes are fixed by the response head's status code. gRPC outcomes
//! are carried as a decimal status code in the `grpc-status` trailer field:
//! code 0 denotes success; any other value, or a trailer value that is not a
//! known code, denotes a non-success outcome.

use vstd::prelude::*;

verus! {

/// The gRPC success code.
pub const GRPC_CODE_OK: u16 = 0;

/// The gRPC code reported for an unrecognized `grpc-status` trailer value.
pub const GRPC_CODE_UNKNOWN: u16 = 2;

/// The status code denoted by a `grpc-status` trailer value: the decimal
/// codes `"0"` through `"16"` name themselves; anything else reads as the
/// catch-all code 2.
pub open spec fn grpc_code_of(v: Seq<u8>) -> u16 {
    if v.len() == 1 && 48 <= v[0] <= 57 {
        (v[0] - 48) as u16
    } else if v.len() == 2 && v[0] == 49 && 48 <= v[1] <= 54 {
        (10 + (v[1] - 48)) as u16
    } else {
        2
    }
}

/// Decodes a `grpc-status` trailer value into its status code.
pub fn parse_grpc_code(v: &[u8]) -> (code: u16)
    ensures
        code == grpc_code_of(v@),
{
    if v.len() == 1 && 48 <= v[0] && v[0] <= 57 {
        (v[0] - 48) as u16
    } else if v.len() == 2 && v[0] == 49 && 48 <= v[1] && v[1] <= 54 {
        10 + (v[1] - 48) as u16
    } else {
        2
    }
}

} // verus!
