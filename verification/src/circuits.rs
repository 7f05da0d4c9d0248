//! The circuit assembler: the capacity planner and the validation of a slice
//! against the bounds that a circuit of `2^k` rows can hold.

pub mod etable;
pub mod image_table;
pub mod laws;
pub mod rows;
pub mod zkwasm_circuit;

use crate::circuits::etable::EVENT_TABLE_ENTRY_ROWS;
use crate::circuits::image_table::{compute_maximal_pages, maximal_pages};
use crate::circuits::rows::{compute_row_budget, lemma_row_budget_monotonic, row_budget};
use crate::circuits::zkwasm_circuit::RESERVE_ROWS;
use crate::error::BuildingCircuitError;
use crate::slice::{EventTableEntry, Slice};
use vstd::prelude::*;

verus! {

/// The rows kept free at the end of the event table.
pub const EVENT_TABLE_TAIL_ROWS: u32 = 1024;

/// The number of steps that the event table of a circuit of size `k` holds.
pub open spec fn slice_capability(k: u32) -> int {
    row_budget(k, RESERVE_ROWS + EVENT_TABLE_TAIL_ROWS, EVENT_TABLE_ENTRY_ROWS as int)
}

/// The number of steps for a layout with `reserve_rows` reserved rows and
/// `entry_rows` rows for each step.
pub open spec fn slice_capability_with(k: u32, reserve_rows: u32, entry_rows: u32) -> int {
    row_budget(k, reserve_rows + EVENT_TABLE_TAIL_ROWS, entry_rows as int)
}

/// Computes the number of steps that fit into a circuit of size `k` whose
/// layout reserves `reserve_rows` rows and spends `entry_rows` rows on each
/// step.
pub fn compute_slice_capability_with(k: u32, reserve_rows: u32, entry_rows: u32) -> (capability:
    u32)
    requires
        entry_rows > 0,
    ensures
        capability == slice_capability_with(k, reserve_rows, entry_rows),
        reserve_rows + EVENT_TABLE_TAIL_ROWS <= (1u64 << k) && k < 32 ==> capability == ((1u64 << k)
            - reserve_rows - EVENT_TABLE_TAIL_ROWS) / (entry_rows as int),
{
    proof {
        if k < 32 {
            vstd::bits::lemma_u64_pow2_no_overflow(k as nat);
            vstd::bits::lemma_u64_shl_is_mul(1u64, k as u64);
            vstd::arithmetic::power2::lemma2_to64();
            crate::circuits::rows::lemma_circuit_rows_monotonic(k, 31);
            let free = (1u64 << k) - reserve_rows - EVENT_TABLE_TAIL_ROWS;
            if free > 0 {
                vstd::arithmetic::div_mod::lemma_div_is_ordered_by_denominator(
                    free,
                    1,
                    entry_rows as int,
                );
            }
        }
    }
    compute_row_budget(k, reserve_rows as u64 + EVENT_TABLE_TAIL_ROWS as u64, entry_rows)
}

/// Computes the number of steps that the event table of a circuit of size
/// `k` holds.
pub fn compute_slice_capability(k: u32) -> (capability: u32)
    ensures
        capability == slice_capability(k),
        RESERVE_ROWS + EVENT_TABLE_TAIL_ROWS <= (1u64 << k) && k < 32 ==> capability == ((1u64 << k)
            - RESERVE_ROWS - EVENT_TABLE_TAIL_ROWS) / (EVENT_TABLE_ENTRY_ROWS as int),
{
    compute_slice_capability_with(k, RESERVE_ROWS, EVENT_TABLE_ENTRY_ROWS)
}

/// Whether the memory that the trace ends with can be addressed. A trace
/// without steps allocates nothing.
pub open spec fn pages_within_limit(k: u32, entries: Seq<EventTableEntry>) -> bool {
    entries.len() > 0 ==> entries.last().allocated_memory_pages <= maximal_pages(k)
}

/// Whether the event table has room for every step of the trace.
pub open spec fn entries_within_limit(k: u32, entries: Seq<EventTableEntry>) -> bool {
    entries.len() <= slice_capability(k)
}

/// The verdict on a trace for a circuit of size `k`: the memory bound is
/// judged first, then the number of steps.
pub open spec fn capacity_verdict(k: u32, entries: Seq<EventTableEntry>) -> Result<
    (),
    BuildingCircuitError,
> {
    if !pages_within_limit(k, entries) {
        Err(
            BuildingCircuitError::PagesExceedLimit(
                entries.last().allocated_memory_pages,
                maximal_pages(k) as u32,
                k,
            ),
        )
    } else if !entries_within_limit(k, entries) {
        Err(
            BuildingCircuitError::EtableEntriesExceedLimit(
                entries.len() as usize,
                slice_capability(k) as u32,
                k,
            ),
        )
    } else {
        Ok(())
    }
}

/// A slice that has been checked against the capacity of a circuit of size
/// `k`. `new` is the only way to make one, so every value of this type holds
/// a slice that fits.
pub struct ZkWasmCircuit {
    k: u32,
    slice: Slice,
}

impl ZkWasmCircuit {
    /// The size parameter: the circuit has `2^k` rows.
    pub closed spec fn size(&self) -> u32 {
        self.k
    }

    /// The slice that the circuit proves.
    pub closed spec fn bound_slice(&self) -> Slice {
        self.slice
    }

    /// Whether the slice fits the circuit.
    pub open spec fn within_capacity(&self) -> bool {
        capacity_verdict(self.size(), self.bound_slice().etable@) is Ok
    }

    #[verifier::type_invariant]
    spec fn checked(&self) -> bool {
        self.within_capacity()
    }

    /// Checks `slice` against the capacity of a circuit of size `k` and, if
    /// it fits, binds the two. A slice that does not fit is refused with the
    /// bound that it exceeds; nothing of it is dropped.
    pub fn new(k: u32, slice: Slice) -> (built: Result<Self, BuildingCircuitError>)
        ensures
            match capacity_verdict(k, slice.etable@) {
                Ok(()) => built is Ok && built->Ok_0.size() == k && built->Ok_0.bound_slice()
                    == slice,
                Err(e) => built is Err && built->Err_0 == e,
            },
    {
        proof {
            lemma_row_budget_monotonic(
                k,
                k,
                RESERVE_ROWS + EVENT_TABLE_TAIL_ROWS,
                EVENT_TABLE_ENTRY_ROWS as int,
            );
        }
        let entries = slice.etable.entries();
        let len = entries.len();
        if len > 0 {
            let allocated_memory_pages = entries[len - 1].allocated_memory_pages;
            let maximal_pages = compute_maximal_pages(k);
            if allocated_memory_pages > maximal_pages {
                return Err(
                    BuildingCircuitError::PagesExceedLimit(allocated_memory_pages, maximal_pages, k),
                );
            }
        }
        let etable_capacity = compute_slice_capability(k);
        if len > etable_capacity as usize {
            return Err(BuildingCircuitError::EtableEntriesExceedLimit(len, etable_capacity, k));
        }
        Ok(ZkWasmCircuit { k, slice })
    }

    /// The size parameter of the circuit.
    pub fn k(&self) -> (k: u32)
        ensures
            k == self.size(),
            self.within_capacity(),
    {
        proof {
            use_type_invariant(self);
        }
        self.k
    }

    /// The slice of the circuit, which fits it.
    pub fn slice(&self) -> (slice: &Slice)
        ensures
            *slice == self.bound_slice(),
            self.within_capacity(),
    {
        proof {
            use_type_invariant(self);
        }
        &self.slice
    }

    /// Gives the slice back and ends the circuit.
    pub fn into_slice(self) -> (slice: Slice)
        ensures
            slice == self.bound_slice(),
            self.within_capacity(),
    {
        proof {
            use_type_invariant(&self);
        }
        self.slice
    }
}

} // verus!
