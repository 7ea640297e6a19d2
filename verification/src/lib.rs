//! Fair-spin settlement engine for a reel-based chance game.
//!
//! The engine is a commit-reveal state machine: a player first requests a
//! spin (escrowing the bet and recording a pending commitment), and later
//! settles it against an externally revealed random value. Settlement runs
//! the weighted symbol generator, the payout calculator, the RTP controller,
//! the jackpot manager and the solvency guard, in that order, and never pays
//! more than the house reserve can afford.
//!
//! Every operation is a pure state transition on plain values: the host is
//! responsible for account storage, fund transfers and obtaining the random
//! value, and commits each transition atomically.

pub mod errors;
pub mod rng;
pub mod symbols;
pub mod payout;
pub mod jackpot;
pub mod rtp;
pub mod solvency;
pub mod state;
pub mod events;
pub mod engine;
