//! The reasons for which a slice is refused before a circuit is assembled.

use vstd::prelude::*;

verus! {

/// A slice that does not fit the circuit of the chosen size. Each variant
/// carries the offending quantity, the bound that it exceeds, and `k`.
#[derive(Clone, Copy, Debug, PartialEq, Eq, Structural)]
pub enum BuildingCircuitError {
    /// The trace ends with more memory pages allocated than can be addressed.
    PagesExceedLimit(u32, u32, u32),
    /// The trace holds more steps than the event table has room for.
    EtableEntriesExceedLimit(usize, u32, u32),
}

} // verus!
