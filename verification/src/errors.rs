//! Error kinds surfaced by the settlement engine.
//!
//! Every boundary condition raises a named error rather than coercing the
//! value; validation errors abort an operation before any state change.

use vstd::prelude::*;

verus! {

/// The reason an operation was rejected. No error is retried internally;
/// each is the immediate result of the operation that raised it.
#[derive(Clone, Copy, Debug, PartialEq, Eq, Structural)]
pub enum ErrorCode {
    /// The bet amount is zero.
    InvalidBetAmount,
    /// The bet amount exceeds the per-spin payout cap.
    BetTooHigh,
    /// A deposit or withdrawal amount is zero.
    InvalidAmount,
    /// The player does not hold enough funds for the bet or deposit.
    InsufficientFunds,
    /// The house reserve cannot admit or honor the operation.
    InsufficientPool,
    /// The caller is not the configured authority.
    Unauthorized,
    /// All staking operations are gated off.
    GamePaused,
    /// The game state has not been initialized.
    Uninitialized,
    /// Checked arithmetic overflowed; the operation aborts with no effect.
    MathOverflow,
    /// The player's state was never created; raised by the host, which owns
    /// account lookup — the engine itself never produces it.
    PlayerStateMissing,
    /// The player already has a pending spin commitment.
    PendingSpinExists,
    /// The player has no pending spin commitment to settle.
    NoPendingSpin,
    /// The supplied randomness handle does not match the recorded commitment.
    RandomnessAccountMismatch,
    /// The revealed randomness bytes could not be decoded.
    RandomnessParseFailed,
    /// The randomness value is not yet revealed, or its seed is stale.
    RandomnessNotResolved,
}

} // verus!
