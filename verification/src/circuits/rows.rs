//! Row budgeting: how many units of a fixed number of rows fit into a circuit
//! of `2^k` rows once a reserved region has been set aside.

use vstd::arithmetic::div_mod::lemma_div_is_ordered;
use vstd::arithmetic::power2::{lemma2_to64, lemma_pow2_strictly_increases, pow2};
use vstd::bits::{lemma_u64_pow2_no_overflow, lemma_u64_shl_is_mul};
use vstd::prelude::*;

verus! {

/// The largest reserved region that a budget can be asked for.
pub const MAX_RESERVED_ROWS: u64 = 0x1_FFFF_FFFF;

/// The number of rows of a circuit with size parameter `k`.
pub open spec fn circuit_rows(k: u32) -> int {
    pow2(k as nat) as int
}

/// The number of whole units of `unit` rows that fit into the rows of a
/// circuit of size `k` that are left after `reserved` rows are set aside:
/// zero when the reserved region does not fit, and capped at `u32::MAX`.
pub open spec fn row_budget(k: u32, reserved: int, unit: int) -> int {
    let free = circuit_rows(k) - reserved;
    if free <= 0 {
        0
    } else if free / unit > u32::MAX {
        u32::MAX as int
    } else {
        free / unit
    }
}

/// A circuit never has fewer rows than a smaller one.
pub proof fn lemma_circuit_rows_monotonic(k1: u32, k2: u32)
    requires
        k1 <= k2,
    ensures
        0 < circuit_rows(k1) <= circuit_rows(k2),
{
    vstd::arithmetic::power2::lemma_pow2_pos(k1 as nat);
    if k1 < k2 {
        lemma_pow2_strictly_increases(k1 as nat, k2 as nat);
    }
}

/// The budget never shrinks when the circuit grows.
pub proof fn lemma_row_budget_monotonic(k1: u32, k2: u32, reserved: int, unit: int)
    requires
        k1 <= k2,
        unit > 0,
    ensures
        0 <= row_budget(k1, reserved, unit) <= row_budget(k2, reserved, unit) <= u32::MAX,
{
    lemma_circuit_rows_monotonic(k1, k2);
    let free1 = circuit_rows(k1) - reserved;
    let free2 = circuit_rows(k2) - reserved;
    if free1 > 0 {
        lemma_div_is_ordered(free1, free2, unit);
        lemma_div_is_ordered(0, free1, unit);
    } else if free2 > 0 {
        lemma_div_is_ordered(0, free2, unit);
    }
}

/// Computes `row_budget` without overflow for every `k`.
pub fn compute_row_budget(k: u32, reserved: u64, unit: u32) -> (budget: u32)
    requires
        reserved <= MAX_RESERVED_ROWS,
        unit > 0,
    ensures
        budget == row_budget(k, reserved as int, unit as int),
{
    if k >= 64 {
        proof {
            lemma2_to64();
            lemma_circuit_rows_monotonic(64, k);
            let free = circuit_rows(k) - reserved;
            assert(free >= unit * u32::MAX) by (nonlinear_arith)
                requires
                    free >= 0x1_0000_0000_0000_0000 - 0x1_FFFF_FFFF,
                    0 < unit <= 0xFFFF_FFFF,
            ;
            lemma_div_is_ordered(unit * u32::MAX, free, unit as int);
            vstd::arithmetic::div_mod::lemma_div_multiples_vanish(u32::MAX as int, unit as int);
            assert(unit * u32::MAX == u32::MAX * unit) by (nonlinear_arith);
        }
        return u32::MAX;
    }
    proof {
        lemma_u64_pow2_no_overflow(k as nat);
        lemma_u64_shl_is_mul(1u64, k as u64);
    }
    let rows: u64 = 1u64 << (k as u64);
    if rows <= reserved {
        return 0;
    }
    let units: u64 = (rows - reserved) / (unit as u64);
    if units > u32::MAX as u64 {
        u32::MAX
    } else {
        units as u32
    }
}

} // verus!
