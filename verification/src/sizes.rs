//! The circuit-size query: request construction and response decoding.
//!
//! The query ships a framed constraint-system buffer to the native side
//! (built with [`crate::codec::frame`]) and receives three unsigned counts
//! back. The native side writes the counts in the opposite byte order, so
//! each one's bytes are reversed before the descriptor is returned. The
//! query mutates nothing; it only reads the buffer and reports.

use vstd::prelude::*;

use crate::composer::ComposerError;
use crate::composer::ErrorKind;

verus! {

/// The sizes of a compiled constraint system: the exact gate count, the
/// total gate count including padding, and the subgroup size. Immutable once
/// computed.
#[derive(Clone, Copy, Debug, Default, PartialEq, Eq, Structural)]
pub struct CircuitSizes {
    pub exact: u32,
    pub total: u32,
    pub subgroup: u32,
}

/// `x` with its byte order reversed: the lowest byte moved to the highest
/// position and so on down.
pub open spec fn swap_bytes_u32(x: u32) -> u32 {
    ((x & 0xFF) << 24) | (((x >> 8) & 0xFF) << 16) | (((x >> 16) & 0xFF) << 8) | ((x >> 24) & 0xFF)
}

/// Reverses the byte order of one count from the native response.
fn swap_u32(x: u32) -> (r: u32)
    ensures
        r == swap_bytes_u32(x),
{
    ((x & 0xFF) << 24) | (((x >> 8) & 0xFF) << 16) | (((x >> 16) & 0xFF) << 8) | ((x >> 24) & 0xFF)
}

/// Decodes the outcome of the circuit-size query. The query's only failure
/// signal is the diagnostic message: when the native side emits one — as it
/// does for a malformed or truncated constraint-system buffer — the query
/// fails with it attached, and no counts are reported. Otherwise the three
/// raw counts, written by the native side in the opposite byte order, are
/// reversed into the descriptor.
pub fn get_circuit_sizes(
    exact_raw: u32,
    total_raw: u32,
    subgroup_raw: u32,
    diagnostic: Option<String>,
) -> (r: Result<CircuitSizes, ComposerError>)
    ensures
        r is Ok <==> diagnostic is None,
        r is Ok ==> r->Ok_0.exact == swap_bytes_u32(exact_raw) && r->Ok_0.total == swap_bytes_u32(
            total_raw,
        ) && r->Ok_0.subgroup == swap_bytes_u32(subgroup_raw),
        r is Err ==> r->Err_0.kind == ErrorKind::CircuitSizesFailed && r->Err_0.diagnostic
            == diagnostic,
{
    if diagnostic.is_some() {
        return Err(ComposerError { kind: ErrorKind::CircuitSizesFailed, diagnostic });
    }
    Ok(
        CircuitSizes {
            exact: swap_u32(exact_raw),
            total: swap_u32(total_raw),
            subgroup: swap_u32(subgroup_raw),
        },
    )
}

} // verus!
