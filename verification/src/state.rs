//! Global game state and per-player spin state.
//!
//! `SlotsState` is created once and mutated only by settlement operations;
//! `PlayerState` is created once per player and cycles its pending fields
//! between empty and committed on every request/settle pair. Both are plain
//! owned values: the host stores them and commits each operation's changes
//! atomically.

use vstd::prelude::*;
use crate::jackpot::JackpotPool;
use crate::jackpot::JackpotsConfig;
use crate::jackpot::jackpots_wf;
use crate::rtp::RTP_BPS_DENOMINATOR;

verus! {

/// Default per-spin payout cap, in the smallest currency unit.
pub const DEFAULT_MAX_PAYOUT_PER_SPIN: u64 = 1_000_000_000;

/// Default minimum reserve the pool may never be drawn below.
pub const DEFAULT_MIN_POOL_THRESHOLD: u64 = 100_000_000;

/// Default target house edge, in basis points.
pub const DEFAULT_HOUSE_EDGE_BPS: u16 = 500;

/// Default seed and starting amount of the mini jackpot.
pub const DEFAULT_MINI_SEED: u64 = 10_000_000;

/// Default seed and starting amount of the major jackpot.
pub const DEFAULT_MAJOR_SEED: u64 = 100_000_000;

/// Default seed and starting amount of the grand jackpot.
pub const DEFAULT_GRAND_SEED: u64 = 1_000_000_000;

/// Default contribution share of the mini jackpot, in basis points.
pub const DEFAULT_MINI_CONTRIB_BPS: u16 = 50;

/// Default contribution share of the major jackpot, in basis points.
pub const DEFAULT_MAJOR_CONTRIB_BPS: u16 = 100;

/// Default contribution share of the grand jackpot, in basis points.
pub const DEFAULT_GRAND_CONTRIB_BPS: u16 = 50;

/// Default hit weight of the mini jackpot.
pub const DEFAULT_MINI_HIT_WEIGHT: u32 = 500;

/// Default hit weight of the major jackpot.
pub const DEFAULT_MAJOR_HIT_WEIGHT: u32 = 300;

/// Default hit weight of the grand jackpot.
pub const DEFAULT_GRAND_HIT_WEIGHT: u32 = 200;

/// The singleton game state: pause gate, RTP statistics, pool accounting
/// and the progressive jackpots.
#[derive(Clone, Copy, Debug, PartialEq, Eq, Structural)]
pub struct SlotsState {
    /// Administrative authority allowed to pause and withdraw.
    pub authority: u64,
    /// The account holding game funds, recorded for the host's checks.
    pub treasury: u64,
    /// Whether `initialize` has run.
    pub initialized: bool,
    /// Gate on all staking operations.
    pub paused: bool,
    /// Settlements performed so far.
    pub total_spins: u64,
    /// Cumulative accepted bets.
    pub total_wagered: u64,
    /// Cumulative payouts.
    pub total_payout: u64,
    /// `total_wagered - total_payout`, saturating at zero.
    pub house_profit: u64,
    /// Realized RTP in basis points, recomputed after each settlement.
    pub current_rtp_bps: u32,
    /// Configured target house edge, in basis points.
    pub house_edge_bps: u16,
    /// The reserve available to cover payouts.
    pub total_pool: u64,
    /// Cap on what one settlement may pay in total.
    pub max_payout_per_spin: u64,
    /// Reserve floor no payout or withdrawal may cross.
    pub min_pool_threshold: u64,
    /// The progressive jackpot pools.
    pub jackpots: JackpotsConfig,
}

/// Per-player state: at most one pending spin commitment at any time.
#[derive(Clone, Copy, Debug, PartialEq, Eq, Structural)]
pub struct PlayerState {
    /// The player this state belongs to.
    pub owner: u64,
    /// Randomness handle committed for the pending spin, if any.
    pub randomness_account: u64,
    /// Bet amount of the pending spin; zero when none is pending.
    pub pending_bet_amount: u64,
    /// Whether a spin is committed and awaiting settlement.
    pub has_pending_spin: bool,
}

/// The game state's invariant: well-formed jackpots and a house edge of at
/// most 100%.
pub open spec fn state_wf(s: SlotsState) -> bool {
    &&& jackpots_wf(s.jackpots)
    &&& s.house_edge_bps <= RTP_BPS_DENOMINATOR
}

/// The player state's invariant: a bet is escrowed exactly while a spin is
/// pending.
pub open spec fn player_wf(p: PlayerState) -> bool {
    p.has_pending_spin <==> p.pending_bet_amount > 0
}

/// The state `initialize` produces for a given authority and treasury.
pub open spec fn spec_initial_state(authority: u64, treasury: u64) -> SlotsState {
    SlotsState {
        authority,
        treasury,
        initialized: true,
        paused: false,
        total_spins: 0,
        total_wagered: 0,
        total_payout: 0,
        house_profit: 0,
        current_rtp_bps: 0,
        house_edge_bps: DEFAULT_HOUSE_EDGE_BPS,
        total_pool: 0,
        max_payout_per_spin: DEFAULT_MAX_PAYOUT_PER_SPIN,
        min_pool_threshold: DEFAULT_MIN_POOL_THRESHOLD,
        jackpots: JackpotsConfig {
            mini: JackpotPool {
                amount: DEFAULT_MINI_SEED,
                seed: DEFAULT_MINI_SEED,
                contrib_bps: DEFAULT_MINI_CONTRIB_BPS,
                hit_weight: DEFAULT_MINI_HIT_WEIGHT,
            },
            major: JackpotPool {
                amount: DEFAULT_MAJOR_SEED,
                seed: DEFAULT_MAJOR_SEED,
                contrib_bps: DEFAULT_MAJOR_CONTRIB_BPS,
                hit_weight: DEFAULT_MAJOR_HIT_WEIGHT,
            },
            grand: JackpotPool {
                amount: DEFAULT_GRAND_SEED,
                seed: DEFAULT_GRAND_SEED,
                contrib_bps: DEFAULT_GRAND_CONTRIB_BPS,
                hit_weight: DEFAULT_GRAND_HIT_WEIGHT,
            },
            hit_weight_total: 1000,
        },
    }
}

/// Creates the global game state with its default solvency parameters and
/// jackpot configuration.
pub fn initialize(authority: u64, treasury: u64) -> (s: SlotsState)
    ensures
        s == spec_initial_state(authority, treasury),
        state_wf(s),
{
    SlotsState {
        authority,
        treasury,
        initialized: true,
        paused: false,
        total_spins: 0,
        total_wagered: 0,
        total_payout: 0,
        house_profit: 0,
        current_rtp_bps: 0,
        house_edge_bps: DEFAULT_HOUSE_EDGE_BPS,
        total_pool: 0,
        max_payout_per_spin: DEFAULT_MAX_PAYOUT_PER_SPIN,
        min_pool_threshold: DEFAULT_MIN_POOL_THRESHOLD,
        jackpots: JackpotsConfig {
            mini: JackpotPool {
                amount: DEFAULT_MINI_SEED,
                seed: DEFAULT_MINI_SEED,
                contrib_bps: DEFAULT_MINI_CONTRIB_BPS,
                hit_weight: DEFAULT_MINI_HIT_WEIGHT,
            },
            major: JackpotPool {
                amount: DEFAULT_MAJOR_SEED,
                seed: DEFAULT_MAJOR_SEED,
                contrib_bps: DEFAULT_MAJOR_CONTRIB_BPS,
                hit_weight: DEFAULT_MAJOR_HIT_WEIGHT,
            },
            grand: JackpotPool {
                amount: DEFAULT_GRAND_SEED,
                seed: DEFAULT_GRAND_SEED,
                contrib_bps: DEFAULT_GRAND_CONTRIB_BPS,
                hit_weight: DEFAULT_GRAND_HIT_WEIGHT,
            },
            hit_weight_total: 1000,
        },
    }
}

/// Creates a player's spin state with no pending commitment. Idempotent by
/// construction: creating it again yields the same empty state.
pub fn init_player(owner: u64) -> (p: PlayerState)
    ensures
        p == (PlayerState { owner, randomness_account: 0, pending_bet_amount: 0, has_pending_spin: false }),
        player_wf(p),
{
    PlayerState { owner, randomness_account: 0, pending_bet_amount: 0, has_pending_spin: false }
}

} // verus!
