//! The row layout of the event table.

use vstd::prelude::*;

verus! {

/// The number of circuit rows that one step of the trace occupies.
pub const EVENT_TABLE_ENTRY_ROWS: u32 = 4;

} // verus!
