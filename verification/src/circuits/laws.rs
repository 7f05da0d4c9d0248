//! What holds of the capacity planner and of the verdict on a slice, for
//! every size parameter and every trace.

use crate::circuits::image_table::{maximal_pages, PAGE_ENTRIES};
use crate::circuits::image_table::INIT_MEMORY_ENTRIES_OFFSET;
use crate::circuits::etable::EVENT_TABLE_ENTRY_ROWS;
use crate::circuits::rows::lemma_row_budget_monotonic;
use crate::circuits::zkwasm_circuit::RESERVE_ROWS;
use crate::circuits::{
    capacity_verdict, entries_within_limit, pages_within_limit, slice_capability,
    EVENT_TABLE_TAIL_ROWS,
};
use crate::error::BuildingCircuitError;
use crate::slice::Slice;
use vstd::prelude::*;

verus! {

/// Both bounds are natural numbers that fit 32 bits, for every `k`.
pub proof fn capacity_is_bounded(k: u32)
    ensures
        0 <= slice_capability(k) <= u32::MAX,
        0 <= maximal_pages(k) <= u32::MAX,
{
    capacity_is_monotonic(k, k);
}

/// A larger circuit holds at least as many steps and addresses at least as
/// many memory pages as a smaller one.
pub proof fn capacity_is_monotonic(k1: u32, k2: u32)
    requires
        k1 <= k2,
    ensures
        0 <= slice_capability(k1) <= slice_capability(k2) <= u32::MAX,
        0 <= maximal_pages(k1) <= maximal_pages(k2) <= u32::MAX,
{
    lemma_row_budget_monotonic(
        k1,
        k2,
        RESERVE_ROWS + EVENT_TABLE_TAIL_ROWS,
        EVENT_TABLE_ENTRY_ROWS as int,
    );
    lemma_row_budget_monotonic(
        k1,
        k2,
        RESERVE_ROWS + INIT_MEMORY_ENTRIES_OFFSET,
        PAGE_ENTRIES as int,
    );
}

/// A trace that fills the event table to the last step is accepted, as long
/// as its memory can be addressed.
pub proof fn full_trace_is_accepted(k: u32, slice: Slice)
    requires
        slice.etable@.len() == slice_capability(k),
        pages_within_limit(k, slice.etable@),
    ensures
        capacity_verdict(k, slice.etable@) is Ok,
{
}

/// A trace with one step more than the event table holds is refused, and the
/// refusal carries that number of steps, the bound and `k`.
pub proof fn overfull_trace_is_refused(k: u32, slice: Slice)
    requires
        slice.etable@.len() == slice_capability(k) + 1,
        slice.etable@.len() <= usize::MAX,
        pages_within_limit(k, slice.etable@),
    ensures
        capacity_verdict(k, slice.etable@) == Err::<(), BuildingCircuitError>(
            BuildingCircuitError::EtableEntriesExceedLimit(
                (slice_capability(k) + 1) as usize,
                slice_capability(k) as u32,
                k,
            ),
        ),
{
}

/// A trace that ends with exactly as many memory pages as can be addressed is
/// accepted, as long as the event table has room for its steps.
pub proof fn full_memory_is_accepted(k: u32, slice: Slice)
    requires
        slice.etable@.len() > 0,
        slice.etable@.last().allocated_memory_pages == maximal_pages(k),
        entries_within_limit(k, slice.etable@),
    ensures
        capacity_verdict(k, slice.etable@) is Ok,
{
}

/// A trace that ends with one memory page more than can be addressed is
/// refused, however few steps it has, and the refusal carries that number of
/// pages, the bound and `k`.
pub proof fn overfull_memory_is_refused(k: u32, slice: Slice)
    requires
        slice.etable@.len() > 0,
        slice.etable@.last().allocated_memory_pages == maximal_pages(k) + 1,
    ensures
        capacity_verdict(k, slice.etable@) == Err::<(), BuildingCircuitError>(
            BuildingCircuitError::PagesExceedLimit(
                (maximal_pages(k) + 1) as u32,
                maximal_pages(k) as u32,
                k,
            ),
        ),
{
}

/// A trace without steps is accepted by a circuit of any size.
pub proof fn empty_trace_is_accepted(k: u32, slice: Slice)
    requires
        slice.etable@.len() == 0,
    ensures
        capacity_verdict(k, slice.etable@) is Ok,
{
    capacity_is_bounded(k);
}

} // verus!
