//! Pool solvency guard.
//!
//! Bounds every payout by the reserve that may actually be spent: the part
//! of the pool above the minimum threshold, further capped by the per-spin
//! maximum. Whatever the outcome, a settlement can never draw the pool
//! below its threshold, and a pool already at or below it pays nothing.

use vstd::prelude::*;

verus! {

/// The most a single settlement may pay in total: the pool above the
/// minimum threshold, capped by the per-spin maximum, floored at zero.
pub open spec fn spec_affordable(total_pool: u64, min_pool_threshold: u64, max_payout_per_spin: u64) -> int {
    let available = if total_pool >= min_pool_threshold {
        total_pool - min_pool_threshold
    } else {
        0
    };
    if available <= max_payout_per_spin {
        available
    } else {
        max_payout_per_spin as int
    }
}

/// Computes the affordable ceiling for one settlement.
pub fn max_total_affordable(total_pool: u64, min_pool_threshold: u64, max_payout_per_spin: u64) -> (cap: u64)
    ensures
        cap == spec_affordable(total_pool, min_pool_threshold, max_payout_per_spin),
        cap <= max_payout_per_spin,
        total_pool >= min_pool_threshold ==> cap <= total_pool - min_pool_threshold,
        total_pool < min_pool_threshold ==> cap == 0,
{
    let available = if total_pool >= min_pool_threshold {
        total_pool - min_pool_threshold
    } else {
        0
    };
    if available <= max_payout_per_spin {
        available
    } else {
        max_payout_per_spin
    }
}

} // verus!
