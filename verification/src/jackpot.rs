//! Progressive jackpot pools.
//!
//! Three independent pools (mini, major, grand) each accrue a basis-point
//! share of every accepted bet, before the outcome is known. When a
//! settlement leaves spare affordable capacity, one pool is drawn by hit
//! weight; it pays its entire amount and resets to its seed, but only if
//! the full amount fits under the affordable ceiling — a jackpot is never
//! paid partially and never silently burned.

use vstd::prelude::*;
use crate::errors::ErrorCode;
use crate::rng::lcg_step;
use crate::rng::next_random_u64;

verus! {

/// Basis points denominator: 10000 bps = 100%.
pub const BPS_DENOMINATOR: u64 = 10000;

/// A single progressive jackpot pool.
#[derive(Clone, Copy, Debug, PartialEq, Eq, Structural)]
pub struct JackpotPool {
    /// Current prize available to be won.
    pub amount: u64,
    /// Floor the pool resets to after a hit.
    pub seed: u64,
    /// Share of each bet routed to this pool, in basis points.
    pub contrib_bps: u16,
    /// Relative odds weight when a jackpot hit is resolved.
    pub hit_weight: u32,
}

/// All jackpot pools combined.
#[derive(Clone, Copy, Debug, PartialEq, Eq, Structural)]
pub struct JackpotsConfig {
    pub mini: JackpotPool,
    pub major: JackpotPool,
    pub grand: JackpotPool,
    /// Sum of the three hit weights.
    pub hit_weight_total: u32,
}

/// A pool is well formed when its prize never fell below its reset floor
/// and its contribution share is at most the whole bet.
pub open spec fn pool_wf(p: JackpotPool) -> bool {
    &&& p.seed <= p.amount
    &&& p.contrib_bps <= BPS_DENOMINATOR
}

/// The configuration is well formed when each pool is and the recorded
/// total hit weight is really the sum of the three.
pub open spec fn jackpots_wf(j: JackpotsConfig) -> bool {
    &&& pool_wf(j.mini)
    &&& pool_wf(j.major)
    &&& pool_wf(j.grand)
    &&& j.hit_weight_total == j.mini.hit_weight + j.major.hit_weight + j.grand.hit_weight
}

/// The contribution a bet routes to a pool: `bet * bps / 10000`, rounded
/// down.
pub open spec fn contribution(bet: u64, bps: u16) -> int {
    ((bet as int) * (bps as int)) / (BPS_DENOMINATOR as int)
}

/// The pools after accruing a bet's contributions, or an overflow error
/// leaving them unchanged.
pub open spec fn spec_apply_contributions(j: JackpotsConfig, bet: u64) -> (JackpotsConfig, Result<
    (),
    ErrorCode,
>) {
    let new_mini = j.mini.amount + contribution(bet, j.mini.contrib_bps);
    let new_major = j.major.amount + contribution(bet, j.major.contrib_bps);
    let new_grand = j.grand.amount + contribution(bet, j.grand.contrib_bps);
    if new_mini <= u64::MAX && new_major <= u64::MAX && new_grand <= u64::MAX {
        (
            JackpotsConfig {
                mini: JackpotPool { amount: new_mini as u64, ..j.mini },
                major: JackpotPool { amount: new_major as u64, ..j.major },
                grand: JackpotPool { amount: new_grand as u64, ..j.grand },
                hit_weight_total: j.hit_weight_total,
            },
            Ok(()),
        )
    } else {
        (j, Err(ErrorCode::MathOverflow))
    }
}

/// The sum of the three pool amounts, or an overflow error.
pub open spec fn spec_total_jackpot_amounts(j: JackpotsConfig) -> Result<u64, ErrorCode> {
    let total = j.mini.amount + j.major.amount + j.grand.amount;
    if total <= u64::MAX {
        Ok(total as u64)
    } else {
        Err(ErrorCode::MathOverflow)
    }
}

/// A pool's state and prize after an award attempt under an affordable
/// ceiling: all-or-nothing — an empty pool or one whose full amount exceeds
/// the ceiling pays nothing and is left unchanged; otherwise the whole
/// amount is paid and the pool resets to its seed.
pub open spec fn spec_award(p: JackpotPool, max_jackpot_payout: u64) -> (JackpotPool, u64) {
    if p.amount == 0 || p.amount > max_jackpot_payout {
        (p, 0)
    } else {
        (JackpotPool { amount: p.seed, ..p }, p.amount)
    }
}

/// The pools, expanded seed and jackpot prize after a resolution draw under
/// an affordable ceiling: one linear-congruential draw picks a candidate
/// tier by hit weight (mini, then major, then grand), and that tier alone
/// is awarded all-or-nothing.
pub open spec fn spec_maybe_hit(j: JackpotsConfig, seed: u64, max_jackpot_payout: u64) -> (
    JackpotsConfig,
    u64,
    u64,
) {
    if j.hit_weight_total == 0 || max_jackpot_payout == 0 {
        (j, seed, 0)
    } else {
        let s2 = lcg_step(seed);
        let r = (s2 as int % 0x1_0000_0000) % (j.hit_weight_total as int);
        if r < j.mini.hit_weight {
            let (p2, won) = spec_award(j.mini, max_jackpot_payout);
            (JackpotsConfig { mini: p2, ..j }, s2, won)
        } else if r < j.mini.hit_weight + j.major.hit_weight {
            let (p2, won) = spec_award(j.major, max_jackpot_payout);
            (JackpotsConfig { major: p2, ..j }, s2, won)
        } else if r < j.mini.hit_weight + j.major.hit_weight + j.grand.hit_weight {
            let (p2, won) = spec_award(j.grand, max_jackpot_payout);
            (JackpotsConfig { grand: p2, ..j }, s2, won)
        } else {
            (j, s2, 0)
        }
    }
}

/// Accrues a bet's contribution to each pool, atomically: on overflow no
/// pool changes and the operation reports the error.
pub fn apply_jackpot_contributions(jackpots: &mut JackpotsConfig, bet_amount: u64) -> (result:
    Result<(), ErrorCode>)
    requires
        jackpots_wf(*old(jackpots)),
    ensures
        (*final(jackpots), result) == spec_apply_contributions(*old(jackpots), bet_amount),
        jackpots_wf(*final(jackpots)),
{
    proof {
        lemma_contribution_product_bounded(bet_amount, jackpots.mini.contrib_bps);
        lemma_contribution_product_bounded(bet_amount, jackpots.major.contrib_bps);
        lemma_contribution_product_bounded(bet_amount, jackpots.grand.contrib_bps);
        lemma_contribution_bounded(bet_amount, jackpots.mini.contrib_bps);
        lemma_contribution_bounded(bet_amount, jackpots.major.contrib_bps);
        lemma_contribution_bounded(bet_amount, jackpots.grand.contrib_bps);
    }
    let mini_contrib: u64 = (((bet_amount as u128) * (jackpots.mini.contrib_bps as u128)) / (
    BPS_DENOMINATOR as u128)) as u64;
    let major_contrib: u64 = (((bet_amount as u128) * (jackpots.major.contrib_bps as u128)) / (
    BPS_DENOMINATOR as u128)) as u64;
    let grand_contrib: u64 = (((bet_amount as u128) * (jackpots.grand.contrib_bps as u128)) / (
    BPS_DENOMINATOR as u128)) as u64;
    let new_mini = match jackpots.mini.amount.checked_add(mini_contrib) {
        Some(v) => v,
        None => {
            return Err(ErrorCode::MathOverflow);
        },
    };
    let new_major = match jackpots.major.amount.checked_add(major_contrib) {
        Some(v) => v,
        None => {
            return Err(ErrorCode::MathOverflow);
        },
    };
    let new_grand = match jackpots.grand.amount.checked_add(grand_contrib) {
        Some(v) => v,
        None => {
            return Err(ErrorCode::MathOverflow);
        },
    };
    jackpots.mini.amount = new_mini;
    jackpots.major.amount = new_major;
    jackpots.grand.amount = new_grand;
    Ok(())
}

/// The bet-times-share product stays far inside the 128-bit range.
pub proof fn lemma_contribution_product_bounded(bet: u64, bps: u16)
    ensures
        0 <= (bet as int) * (bps as int) <= (u64::MAX as int) * (u16::MAX as int),
{
    assert(0 <= (bet as int) * (bps as int) <= (u64::MAX as int) * (u16::MAX as int))
        by (nonlinear_arith)
        requires bet <= u64::MAX && bps <= u16::MAX;
}

/// A contribution never exceeds the bet itself, because the share is at
/// most the whole in basis points.
pub proof fn lemma_contribution_bounded(bet: u64, bps: u16)
    requires
        bps <= BPS_DENOMINATOR,
    ensures
        0 <= contribution(bet, bps) <= bet,
{
    assert((bet as int) * (bps as int) <= (bet as int) * (BPS_DENOMINATOR as int))
        by (nonlinear_arith)
        requires bps <= BPS_DENOMINATOR;
    assert((bet as int) * (BPS_DENOMINATOR as int) / (BPS_DENOMINATOR as int) == bet as int)
        by (nonlinear_arith);
    assert((bet as int) * (bps as int) / (BPS_DENOMINATOR as int) <= (bet as int) * (
    BPS_DENOMINATOR as int) / (BPS_DENOMINATOR as int)) by (nonlinear_arith)
        requires (bet as int) * (bps as int) <= (bet as int) * (BPS_DENOMINATOR as int);
    assert((bet as int) * (bps as int) >= 0) by (nonlinear_arith);
}

/// Sums the three pool amounts with checked arithmetic.
pub fn total_jackpot_amounts(jackpots: &JackpotsConfig) -> (result: Result<u64, ErrorCode>)
    ensures
        result == spec_total_jackpot_amounts(*jackpots),
{
    let sum1 = match jackpots.mini.amount.checked_add(jackpots.major.amount) {
        Some(v) => v,
        None => {
            return Err(ErrorCode::MathOverflow);
        },
    };
    match sum1.checked_add(jackpots.grand.amount) {
        Some(v) => Ok(v),
        None => Err(ErrorCode::MathOverflow),
    }
}

/// Awards a pool all-or-nothing under an affordable ceiling: the whole
/// amount is paid and the pool resets to its seed, or nothing happens.
pub fn award_jackpot(pool: &mut JackpotPool, max_jackpot_payout: u64) -> (won: u64)
    requires
        pool_wf(*old(pool)),
    ensures
        (*final(pool), won) == spec_award(*old(pool), max_jackpot_payout),
        pool_wf(*final(pool)),
        won == 0 || (won == old(pool).amount && won <= max_jackpot_payout && final(pool).amount
            == old(pool).seed),
{
    if pool.amount == 0 {
        return 0;
    }
    if pool.amount > max_jackpot_payout {
        return 0;
    }
    let amount = pool.amount;
    pool.amount = pool.seed;
    amount
}

/// Resolves a possible jackpot hit: draws a candidate tier by hit weight
/// from the expanded seed and awards it all-or-nothing under the ceiling.
pub fn maybe_hit_jackpot(jackpots: &mut JackpotsConfig, seed: &mut u64, max_jackpot_payout: u64)
    -> (result: Result<u64, ErrorCode>)
    requires
        jackpots_wf(*old(jackpots)),
    ensures
        ({
            let (j2, s2, won) = spec_maybe_hit(*old(jackpots), *old(seed), max_jackpot_payout);
            *final(jackpots) == j2 && *final(seed) == s2 && result == Ok::<u64, ErrorCode>(won)
        }),
        jackpots_wf(*final(jackpots)),
{
    let hit_total = jackpots.hit_weight_total;
    if hit_total == 0 || max_jackpot_payout == 0 {
        return Ok(0);
    }

    let x = next_random_u64(seed);
    let r: u32 = ((x % 0x1_0000_0000) as u32) % hit_total;

    let mut acc = jackpots.mini.hit_weight;
    if r < acc {
        return Ok(award_jackpot(&mut jackpots.mini, max_jackpot_payout));
    }

    acc = acc + jackpots.major.hit_weight;
    if r < acc {
        return Ok(award_jackpot(&mut jackpots.major, max_jackpot_payout));
    }

    acc = acc + jackpots.grand.hit_weight;
    if r < acc {
        return Ok(award_jackpot(&mut jackpots.grand, max_jackpot_payout));
    }

    Ok(0)
}

/// A pool pays only when its full amount fits under the ceiling, and after
/// an award it sits exactly at its seed, which is never negative.
pub proof fn lemma_award_resets_to_seed(p: JackpotPool, max_jackpot_payout: u64)
    ensures
        ({
            let (p2, won) = spec_award(p, max_jackpot_payout);
            &&& won != 0 ==> won == p.amount && p.amount <= max_jackpot_payout && p2.amount
                == p.seed && p2.amount >= 0
            &&& won == 0 ==> p2 == p
        }),
{
}

/// A jackpot is paid only when the candidate pool's full amount fits under
/// the affordable ceiling, and then the whole amount is paid: partial
/// jackpot payments never occur, and the winning pool resets exactly to its
/// seed.
pub proof fn lemma_jackpot_all_or_nothing(j: JackpotsConfig, seed: u64, max_jackpot_payout: u64)
    ensures
        ({
            let (j2, s2, won) = spec_maybe_hit(j, seed, max_jackpot_payout);
            &&& won == 0 || won <= max_jackpot_payout
            &&& won == 0 || won == j.mini.amount || won == j.major.amount || won == j.grand.amount
            &&& won == 0 ==> j2 == j
            &&& won != 0 ==> (j2.mini.amount == j.mini.seed || j2.mini == j.mini) && (
            j2.major.amount == j.major.seed || j2.major == j.major) && (j2.grand.amount
                == j.grand.seed || j2.grand == j.grand)
        }),
{
}

} // verus!
