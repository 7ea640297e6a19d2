//! Typed results the settlement operations emit.
//!
//! The engine returns these to its caller instead of writing to any event
//! bus; the host forwards them to whatever observability sink it uses.

use vstd::prelude::*;

verus! {

/// A spin was committed: the bet is escrowed and the outcome bound to a
/// randomness handle.
#[derive(Clone, Copy, Debug, PartialEq, Eq, Structural)]
pub struct SpinCommitted {
    pub user: u64,
    pub bet_amount: u64,
    pub randomness_account: u64,
}

/// A spin was settled: the outcome, and what it paid.
#[derive(Clone, Copy, Debug, PartialEq, Eq)]
pub struct SpinSettled {
    pub user: u64,
    pub randomness_account: u64,
    /// The three reel symbols, reported even when nothing could be paid.
    pub symbols: [u8; 3],
    pub base_payout: u64,
    pub jackpot_payout: u64,
    pub total_payout: u64,
}

/// The aggregate statistics after a settlement.
#[derive(Clone, Copy, Debug, PartialEq, Eq, Structural)]
pub struct RTPUpdate {
    pub total_spins: u64,
    pub total_wagered: u64,
    pub total_payout: u64,
    pub house_profit: u64,
    pub current_rtp_bps: u32,
}

/// Funds were deposited into the pool.
#[derive(Clone, Copy, Debug, PartialEq, Eq, Structural)]
pub struct PoolDeposit {
    pub user: u64,
    pub amount: u64,
    pub new_pool: u64,
}

/// The pause gate was toggled by the authority.
#[derive(Clone, Debug, PartialEq, Eq)]
pub struct EmergencyAction {
    /// `"paused"` or `"resumed"`: the new position of the pause switch.
    pub action: String,
    pub authority: u64,
}

} // verus!
