//! The capacity of the image table, which commits to the initial memory.

use crate::circuits::rows::{compute_row_budget, row_budget};
use crate::circuits::zkwasm_circuit::RESERVE_ROWS;
use vstd::prelude::*;

verus! {

/// The row of the image table at which the initial memory entries start.
pub const INIT_MEMORY_ENTRIES_OFFSET: u32 = 40960;

/// The number of image table entries that one memory page occupies: a page
/// of 64 KiB in entries of 8 bytes.
pub const PAGE_ENTRIES: u32 = 8192;

/// The number of memory pages that a circuit of size `k` can address.
pub open spec fn maximal_pages(k: u32) -> int {
    row_budget(k, RESERVE_ROWS + INIT_MEMORY_ENTRIES_OFFSET, PAGE_ENTRIES as int)
}

/// Computes the number of memory pages that a circuit of size `k` can
/// address: the rows behind the reserved region and the fixed part of the
/// image, in whole pages.
pub fn compute_maximal_pages(k: u32) -> (pages: u32)
    ensures
        pages == maximal_pages(k),
{
    compute_row_budget(k, RESERVE_ROWS as u64 + INIT_MEMORY_ENTRIES_OFFSET as u64, PAGE_ENTRIES)
}

} // verus!
