//! Deterministic expansion of a single revealed seed into several draws.
//!
//! Only one random value is obtained per settlement, so the engine derives
//! its independent draws (three reels and the jackpot roll) by iterating a
//! fixed linear-congruential step over that one seed. The expansion is
//! reproducible: the same revealed seed always yields the same outcome.

use vstd::prelude::*;

verus! {

/// Multiplier of the linear-congruential step (Knuth's MMIX constant).
pub const LCG_MULTIPLIER: u64 = 6364136223846793005;

/// Increment of the linear-congruential step.
pub const LCG_INCREMENT: u64 = 1;

/// One linear-congruential step: `s * a + c` reduced modulo `2^64`.
pub open spec fn lcg_step(s: u64) -> u64 {
    (((s as int) * (LCG_MULTIPLIER as int) + (LCG_INCREMENT as int)) % 0x1_0000_0000_0000_0000) as u64
}

/// Advances the seed by one linear-congruential step and returns the new
/// seed, which is also the next draw.
pub fn next_random_u64(seed: &mut u64) -> (r: u64)
    ensures
        *final(seed) == lcg_step(*old(seed)),
        r == lcg_step(*old(seed)),
{
    proof {
        assert((*seed as int) * (LCG_MULTIPLIER as int) <= (u64::MAX as int) * (LCG_MULTIPLIER as int))
            by (nonlinear_arith)
            requires *seed <= u64::MAX;
        assert((*seed as int) * (LCG_MULTIPLIER as int) >= 0) by (nonlinear_arith);
    }
    let wide: u128 = (*seed as u128) * (LCG_MULTIPLIER as u128) + (LCG_INCREMENT as u128);
    let next: u64 = (wide % 0x1_0000_0000_0000_0000u128) as u64;
    *seed = next;
    next
}

} // verus!
