//! The row layout shared by all tables of the circuit.

use vstd::prelude::*;

verus! {

/// The rows set aside for bookkeeping in every circuit, whatever its size.
pub const RESERVE_ROWS: u32 = 128;

} // verus!
