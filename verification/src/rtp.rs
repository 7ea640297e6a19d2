//! Return-to-player (RTP) controller.
//!
//! Tracks the realized return against a configured target band and nudges
//! single-spin payouts toward it, without ever making an outcome
//! deterministic. During a warm-up window, and while the realized RTP sits
//! inside the tolerance band, the theoretical payout passes through
//! unmodified; out of band, the payout becomes the incremental amount
//! needed to reach the target, bounded by hard per-spin caps.

use vstd::prelude::*;

verus! {

/// Settlements before which no adjustment is attempted: too little history.
pub const RTP_WARMUP_SPINS: u64 = 100;

/// Half-width of the tolerance band around the target, in basis points.
pub const RTP_TOLERANCE_BPS: u64 = 50;

/// Out-of-band payouts never exceed this multiple of the theoretical
/// payout.
pub const RTP_MAX_THEORETICAL_MULTIPLE: u64 = 2;

/// Out-of-band payouts never exceed this multiple of the bet.
pub const RTP_MAX_BET_MULTIPLE: u64 = 2;

/// Absolute ceiling on any adjusted payout, as a multiple of the bet.
pub const RTP_ABSOLUTE_BET_MULTIPLE: u64 = 10;

/// Basis points denominator, as used by the RTP ratio.
pub const RTP_BPS_DENOMINATOR: u64 = 10000;

/// The realized RTP in basis points: `total_payout * 10000 / total_wagered`,
/// reduced to the 32-bit counter it is stored in. Only meaningful for a
/// positive cumulative wager.
pub open spec fn rtp_bps(total_payout: u64, total_wagered: u64) -> int {
    (((total_payout as int) * (RTP_BPS_DENOMINATOR as int)) / (total_wagered as int)) % 0x1_0000_0000
}

/// The RTP the controller steers toward: the complement of the configured
/// house edge.
pub open spec fn target_rtp_bps(house_edge_bps: u16) -> int {
    (RTP_BPS_DENOMINATOR as int) - (house_edge_bps as int)
}

/// Whether the realized RTP sits within the tolerance band of the target.
pub open spec fn rtp_in_band(total_payout: u64, total_wagered: u64, house_edge_bps: u16) -> bool {
    let current = rtp_bps(total_payout, total_wagered);
    let target = target_rtp_bps(house_edge_bps);
    current <= target + RTP_TOLERANCE_BPS && target <= current + RTP_TOLERANCE_BPS
}

/// The payout the controller emits for one spin, given the history so far
/// and the theoretical payout of the outcome. In warm-up, with no wagering
/// history, or in band, the theoretical payout passes through; out of band,
/// the incremental payout needed to reach the target (floored at zero)
/// passes instead, capped at twice the theoretical payout, twice the bet
/// and ten times the bet.
pub open spec fn spec_adjusted_payout(
    total_spins: u64,
    total_wagered: u64,
    total_payout: u64,
    house_edge_bps: u16,
    bet: u64,
    theoretical: u64,
) -> int {
    if total_spins < RTP_WARMUP_SPINS {
        theoretical as int
    } else if total_wagered == 0 {
        theoretical as int
    } else if rtp_in_band(total_payout, total_wagered, house_edge_bps) {
        theoretical as int
    } else {
        let target_total = (total_wagered as int) * target_rtp_bps(house_edge_bps) / (
        RTP_BPS_DENOMINATOR as int);
        let needed = if target_total > total_payout {
            target_total - total_payout
        } else {
            0
        };
        let cap_theoretical = (RTP_MAX_THEORETICAL_MULTIPLE as int) * (theoretical as int);
        let cap_bet = (RTP_MAX_BET_MULTIPLE as int) * (bet as int);
        let cap_absolute = (RTP_ABSOLUTE_BET_MULTIPLE as int) * (bet as int);
        let a1 = if needed <= cap_theoretical {
            needed
        } else {
            cap_theoretical
        };
        let a2 = if a1 <= cap_bet {
            a1
        } else {
            cap_bet
        };
        if a2 <= cap_absolute {
            a2
        } else {
            cap_absolute
        }
    }
}

/// What the house owes in total to sit exactly on the target RTP never
/// exceeds the cumulative wager, because the target is at most 100%.
proof fn lemma_target_total_bounded(total_wagered: u64, house_edge_bps: u16)
    requires
        house_edge_bps <= RTP_BPS_DENOMINATOR,
    ensures
        0 <= (total_wagered as int) * target_rtp_bps(house_edge_bps) / (
        RTP_BPS_DENOMINATOR as int) <= total_wagered,
        (total_wagered as int) * target_rtp_bps(house_edge_bps) <= (u64::MAX as int) * (
        RTP_BPS_DENOMINATOR as int),
{
    let w = total_wagered as int;
    let t = target_rtp_bps(house_edge_bps);
    let d = RTP_BPS_DENOMINATOR as int;
    assert(0 <= w * t <= w * d && w * d <= (u64::MAX as int) * d && w * t / d <= w * d / d && w * d
        / d == w && 0 <= w * t / d) by (nonlinear_arith)
        requires 0 <= w <= u64::MAX && 0 <= t <= d && d == 10000;
}

/// Applies the RTP policy to one spin's theoretical payout.
pub fn apply_rtp_adjustment(
    total_spins: u64,
    total_wagered: u64,
    total_payout: u64,
    house_edge_bps: u16,
    bet: u64,
    theoretical: u64,
) -> (adjusted: u64)
    requires
        house_edge_bps <= RTP_BPS_DENOMINATOR,
    ensures
        adjusted == spec_adjusted_payout(
            total_spins,
            total_wagered,
            total_payout,
            house_edge_bps,
            bet,
            theoretical,
        ),
{
    if total_spins < RTP_WARMUP_SPINS {
        return theoretical;
    }
    if total_wagered == 0 {
        return theoretical;
    }

    proof {
        lemma_rtp_product_bounded(total_payout);
    }
    let current: u64 = ((((total_payout as u128) * (RTP_BPS_DENOMINATOR as u128)) / (
    total_wagered as u128)) % 0x1_0000_0000u128) as u64;
    let target: u64 = RTP_BPS_DENOMINATOR - (house_edge_bps as u64);
    if current <= target + RTP_TOLERANCE_BPS && target <= current + RTP_TOLERANCE_BPS {
        return theoretical;
    }

    proof {
        lemma_target_total_bounded(total_wagered, house_edge_bps);
    }
    let target_total: u64 = (((total_wagered as u128) * (target as u128)) / (
    RTP_BPS_DENOMINATOR as u128)) as u64;
    let needed: u64 = if target_total > total_payout {
        target_total - total_payout
    } else {
        0
    };

    let cap_theoretical: u128 = (RTP_MAX_THEORETICAL_MULTIPLE as u128) * (theoretical as u128);
    let cap_bet: u128 = (RTP_MAX_BET_MULTIPLE as u128) * (bet as u128);
    let cap_absolute: u128 = (RTP_ABSOLUTE_BET_MULTIPLE as u128) * (bet as u128);
    let mut adjusted: u128 = needed as u128;
    if adjusted > cap_theoretical {
        adjusted = cap_theoretical;
    }
    if adjusted > cap_bet {
        adjusted = cap_bet;
    }
    if adjusted > cap_absolute {
        adjusted = cap_absolute;
    }
    adjusted as u64
}

/// The numerator of the RTP ratio stays inside the 128-bit range.
pub proof fn lemma_rtp_product_bounded(total_payout: u64)
    ensures
        0 <= (total_payout as int) * (RTP_BPS_DENOMINATOR as int) <= (u64::MAX as int) * (
        RTP_BPS_DENOMINATOR as int),
{
    assert(0 <= (total_payout as int) * 10000 <= (u64::MAX as int) * 10000) by (nonlinear_arith)
        requires total_payout <= u64::MAX;
}

/// During warm-up the payout is the theoretical payout, unmodified.
pub proof fn lemma_warmup_payout_unmodified(
    total_spins: u64,
    total_wagered: u64,
    total_payout: u64,
    house_edge_bps: u16,
    bet: u64,
    theoretical: u64,
)
    requires
        total_spins < RTP_WARMUP_SPINS,
    ensures
        spec_adjusted_payout(total_spins, total_wagered, total_payout, house_edge_bps, bet,
            theoretical) == theoretical,
{
}

/// Out of band, after warm-up, the adjusted payout satisfies every stated
/// cap: at most twice the theoretical payout, at most twice the bet, and at
/// most ten times the bet.
pub proof fn lemma_adjusted_payout_caps(
    total_spins: u64,
    total_wagered: u64,
    total_payout: u64,
    house_edge_bps: u16,
    bet: u64,
    theoretical: u64,
)
    requires
        total_spins >= RTP_WARMUP_SPINS,
        total_wagered > 0,
        !rtp_in_band(total_payout, total_wagered, house_edge_bps),
    ensures
        ({
            let adjusted = spec_adjusted_payout(total_spins, total_wagered, total_payout,
                house_edge_bps, bet, theoretical);
            &&& adjusted <= (RTP_MAX_THEORETICAL_MULTIPLE as int) * (theoretical as int)
            &&& adjusted <= (RTP_MAX_BET_MULTIPLE as int) * (bet as int)
            &&& adjusted <= (RTP_ABSOLUTE_BET_MULTIPLE as int) * (bet as int)
        }),
{
    assert((RTP_MAX_THEORETICAL_MULTIPLE as int) * (theoretical as int) >= 0) by (nonlinear_arith);
    assert((RTP_MAX_BET_MULTIPLE as int) * (bet as int) >= 0) by (nonlinear_arith);
    assert((RTP_ABSOLUTE_BET_MULTIPLE as int) * (bet as int) >= 0) by (nonlinear_arith);
}

} // verus!
