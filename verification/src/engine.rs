//! Spin settlement orchestrator: the commit-reveal state machine.
//!
//! Each player cycles `Idle -> Committed -> Idle`. A request validates the
//! game gate, the bet, the player's idle slot, the reserve admission bound
//! and the handle's freshness, then escrows the bet, accrues jackpot
//! contributions and records the commitment. A settlement validates the
//! commitment against the supplied handle, expands the revealed seed into
//! the outcome, applies the RTP policy, the solvency cap and the jackpot
//! resolution, updates the aggregate counters and clears the commitment.
//!
//! Every operation is all-or-nothing: any validation or overflow failure
//! returns an error with both states exactly as they were. The host
//! performs the actual fund transfers; the engine checks the balances it is
//! handed and reports what must move.

use vstd::prelude::*;
use vstd::bytes::u64_from_le_bytes;
use vstd::bytes::spec_u64_from_le_bytes;
use vstd::slice::slice_subrange;
use crate::errors::ErrorCode;
use crate::events::{SpinCommitted, SpinSettled, RTPUpdate, PoolDeposit, EmergencyAction};
use crate::jackpot::{
    spec_apply_contributions, spec_maybe_hit, spec_total_jackpot_amounts,
    apply_jackpot_contributions, maybe_hit_jackpot, total_jackpot_amounts,
    lemma_jackpot_all_or_nothing,
};
use crate::payout::{spec_base_payout, calculate_payout_3oak};
use crate::rng::{lcg_step, next_random_u64};
use crate::rtp::{
    spec_adjusted_payout, rtp_bps, apply_rtp_adjustment, lemma_rtp_product_bounded,
    RTP_BPS_DENOMINATOR,
};
use crate::solvency::{spec_affordable, max_total_affordable};
use crate::state::{SlotsState, PlayerState, state_wf, player_wf};
use crate::symbols::{TOTAL_WEIGHT, symbol_for, generate_weighted_symbol};

verus! {

/// The revealed bytes as a mathematical value, `None` while unrevealed.
pub open spec fn opt_bytes_view(revealed: Option<&[u8]>) -> Option<Seq<u8>> {
    match revealed {
        Some(b) => Some(b@),
        None => None,
    }
}

/// `a - b` floored at zero.
pub open spec fn sat_sub_u64(a: u64, b: u64) -> u64 {
    if a >= b {
        (a - b) as u64
    } else {
        0u64
    }
}

/// The reserve a request demands before a new bet is accepted: the minimum
/// threshold plus one worst-case payout, saturating.
pub open spec fn spec_required_pool(s: SlotsState) -> int {
    if s.min_pool_threshold + s.max_payout_per_spin > u64::MAX {
        u64::MAX as int
    } else {
        s.min_pool_threshold + s.max_payout_per_spin
    }
}

/// Whether a randomness handle's seed slot is fresh: the current time-step
/// or the immediately preceding one.
pub open spec fn spec_handle_fresh(seed_slot: u64, current_slot: u64) -> bool {
    seed_slot == current_slot || seed_slot == sat_sub_u64(current_slot, 1)
}

/// The player's slot after a settlement clears it.
pub open spec fn spec_cleared_player(p: PlayerState) -> PlayerState {
    PlayerState { randomness_account: 0, pending_bet_amount: 0, has_pending_spin: false, ..p }
}

/// The realized RTP counter after a settlement: recomputed from the totals
/// when any wagering happened, otherwise left as it was.
pub open spec fn spec_new_rtp(total_payout: u64, total_wagered: u64, previous: u32) -> u32 {
    if total_wagered > 0 {
        rtp_bps(total_payout, total_wagered) as u32
    } else {
        previous
    }
}

/// The complete effect of a spin request on the game and player state:
/// either both updated together with the committed event, or an error with
/// both exactly unchanged.
pub open spec fn spec_request_spin(
    s: SlotsState,
    p: PlayerState,
    randomness_account: u64,
    bet_amount: u64,
    user_balance: u64,
    treasury_balance: u64,
    seed_slot: u64,
    current_slot: u64,
) -> (SlotsState, PlayerState, Result<SpinCommitted, ErrorCode>) {
    if !s.initialized {
        (s, p, Err(ErrorCode::Uninitialized))
    } else if s.paused {
        (s, p, Err(ErrorCode::GamePaused))
    } else if bet_amount == 0 {
        (s, p, Err(ErrorCode::InvalidBetAmount))
    } else if bet_amount > s.max_payout_per_spin {
        (s, p, Err(ErrorCode::BetTooHigh))
    } else if p.has_pending_spin {
        (s, p, Err(ErrorCode::PendingSpinExists))
    } else if user_balance < bet_amount {
        (s, p, Err(ErrorCode::InsufficientFunds))
    } else if (s.total_pool as int) < spec_required_pool(s) {
        (s, p, Err(ErrorCode::InsufficientPool))
    } else if (treasury_balance as int) < spec_required_pool(s) {
        (s, p, Err(ErrorCode::InsufficientPool))
    } else if !spec_handle_fresh(seed_slot, current_slot) {
        (s, p, Err(ErrorCode::RandomnessNotResolved))
    } else {
        let new_wagered = s.total_wagered + bet_amount;
        let new_pool = s.total_pool + bet_amount;
        let (new_jackpots, contrib_result) = spec_apply_contributions(s.jackpots, bet_amount);
        if new_wagered > u64::MAX || new_pool > u64::MAX || contrib_result is Err {
            (s, p, Err(ErrorCode::MathOverflow))
        } else {
            (
                SlotsState {
                    total_wagered: new_wagered as u64,
                    total_pool: new_pool as u64,
                    jackpots: new_jackpots,
                    ..s
                },
                PlayerState {
                    randomness_account: randomness_account,
                    pending_bet_amount: bet_amount,
                    has_pending_spin: true,
                    ..p
                },
                Ok(
                    SpinCommitted {
                        user: p.owner,
                        bet_amount: bet_amount,
                        randomness_account: randomness_account,
                    },
                ),
            )
        }
    }
}

/// The complete effect of settling a pending spin: the outcome and counter
/// updates on success, or an error with both states exactly unchanged.
pub open spec fn spec_settle_spin(
    s: SlotsState,
    p: PlayerState,
    randomness_account: u64,
    revealed: Option<Seq<u8>>,
    treasury_balance: u64,
) -> (SlotsState, PlayerState, Result<(SpinSettled, RTPUpdate), ErrorCode>) {
    if !s.initialized {
        (s, p, Err(ErrorCode::Uninitialized))
    } else if s.paused {
        (s, p, Err(ErrorCode::GamePaused))
    } else if !p.has_pending_spin {
        (s, p, Err(ErrorCode::NoPendingSpin))
    } else if p.randomness_account != randomness_account {
        (s, p, Err(ErrorCode::RandomnessAccountMismatch))
    } else if p.pending_bet_amount == 0 {
        (s, p, Err(ErrorCode::InvalidBetAmount))
    } else if revealed is None {
        (s, p, Err(ErrorCode::RandomnessNotResolved))
    } else if revealed.unwrap().len() < 8 {
        (s, p, Err(ErrorCode::RandomnessParseFailed))
    } else {
        let bet_amount = p.pending_bet_amount;
        let seed0 = spec_u64_from_le_bytes(revealed.unwrap().subrange(0, 8));
        let draw1 = lcg_step(seed0);
        let draw2 = lcg_step(draw1);
        let draw3 = lcg_step(draw2);
        let sym1 = symbol_for((draw1 as int) % (TOTAL_WEIGHT as int)) as u8;
        let sym2 = symbol_for((draw2 as int) % (TOTAL_WEIGHT as int)) as u8;
        let sym3 = symbol_for((draw3 as int) % (TOTAL_WEIGHT as int)) as u8;
        match spec_base_payout(sym1, sym2, sym3, bet_amount) {
            Err(e) => (s, p, Err(e)),
            Ok(theoretical) => {
                let adjusted = spec_adjusted_payout(
                    s.total_spins,
                    s.total_wagered,
                    s.total_payout,
                    s.house_edge_bps,
                    bet_amount,
                    theoretical,
                );
                let affordable = spec_affordable(
                    s.total_pool,
                    s.min_pool_threshold,
                    s.max_payout_per_spin,
                );
                if affordable == 0 {
                    if s.total_spins + 1 > u64::MAX {
                        (s, p, Err(ErrorCode::MathOverflow))
                    } else {
                        let s2 = SlotsState {
                            total_spins: (s.total_spins + 1) as u64,
                            house_profit: sat_sub_u64(s.total_wagered, s.total_payout),
                            current_rtp_bps: spec_new_rtp(
                                s.total_payout,
                                s.total_wagered,
                                s.current_rtp_bps,
                            ),
                            ..s
                        };
                        (
                            s2,
                            spec_cleared_player(p),
                            Ok(
                                (
                                    SpinSettled {
                                        user: p.owner,
                                        randomness_account: randomness_account,
                                        symbols: [sym1, sym2, sym3],
                                        base_payout: 0,
                                        jackpot_payout: 0,
                                        total_payout: 0,
                                    },
                                    RTPUpdate {
                                        total_spins: s2.total_spins,
                                        total_wagered: s2.total_wagered,
                                        total_payout: s2.total_payout,
                                        house_profit: s2.house_profit,
                                        current_rtp_bps: s2.current_rtp_bps,
                                    },
                                ),
                            ),
                        )
                    }
                } else {
                    let base_payout = if adjusted <= affordable {
                        adjusted
                    } else {
                        affordable
                    };
                    let remaining = affordable - base_payout;
                    let (new_jackpots, _seed_after, jackpot_payout) = if remaining > 0 {
                        spec_maybe_hit(s.jackpots, draw3, remaining as u64)
                    } else {
                        (s.jackpots, draw3, 0u64)
                    };
                    let total = base_payout + jackpot_payout;
                    if total > 0 && treasury_balance < total {
                        (s, p, Err(ErrorCode::InsufficientPool))
                    } else if total > 0 && s.total_pool < total {
                        (s, p, Err(ErrorCode::InsufficientPool))
                    } else if s.total_payout + total > u64::MAX {
                        (s, p, Err(ErrorCode::MathOverflow))
                    } else if s.total_spins + 1 > u64::MAX {
                        (s, p, Err(ErrorCode::MathOverflow))
                    } else {
                        let new_payout = (s.total_payout + total) as u64;
                        let s2 = SlotsState {
                            total_spins: (s.total_spins + 1) as u64,
                            total_payout: new_payout,
                            total_pool: (s.total_pool - total) as u64,
                            house_profit: sat_sub_u64(s.total_wagered, new_payout),
                            current_rtp_bps: spec_new_rtp(
                                new_payout,
                                s.total_wagered,
                                s.current_rtp_bps,
                            ),
                            jackpots: new_jackpots,
                            ..s
                        };
                        (
                            s2,
                            spec_cleared_player(p),
                            Ok(
                                (
                                    SpinSettled {
                                        user: p.owner,
                                        randomness_account: randomness_account,
                                        symbols: [sym1, sym2, sym3],
                                        base_payout: base_payout as u64,
                                        jackpot_payout: jackpot_payout,
                                        total_payout: total as u64,
                                    },
                                    RTPUpdate {
                                        total_spins: s2.total_spins,
                                        total_wagered: s2.total_wagered,
                                        total_payout: s2.total_payout,
                                        house_profit: s2.house_profit,
                                        current_rtp_bps: s2.current_rtp_bps,
                                    },
                                ),
                            ),
                        )
                    }
                }
            },
        }
    }
}

/// Requests a spin: validates, escrows the bet into the accounting,
/// accrues jackpot contributions and records the pending commitment. The
/// host must have verified that `user_balance` and `treasury_balance` are
/// the true balances and must perform the escrow transfer exactly when this
/// returns the committed event.
pub fn request_spin(
    slots_state: &mut SlotsState,
    player_state: &mut PlayerState,
    randomness_account: u64,
    bet_amount: u64,
    user_balance: u64,
    treasury_balance: u64,
    seed_slot: u64,
    current_slot: u64,
) -> (result: Result<SpinCommitted, ErrorCode>)
    requires
        state_wf(*old(slots_state)),
        player_wf(*old(player_state)),
    ensures
        ({
            let (s2, p2, r) = spec_request_spin(
                *old(slots_state),
                *old(player_state),
                randomness_account,
                bet_amount,
                user_balance,
                treasury_balance,
                seed_slot,
                current_slot,
            );
            *final(slots_state) == s2 && *final(player_state) == p2 && result == r
        }),
        state_wf(*final(slots_state)),
        player_wf(*final(player_state)),
{
    if !slots_state.initialized {
        return Err(ErrorCode::Uninitialized);
    }
    if slots_state.paused {
        return Err(ErrorCode::GamePaused);
    }
    if bet_amount == 0 {
        return Err(ErrorCode::InvalidBetAmount);
    }
    if bet_amount > slots_state.max_payout_per_spin {
        return Err(ErrorCode::BetTooHigh);
    }
    if player_state.has_pending_spin {
        return Err(ErrorCode::PendingSpinExists);
    }
    if user_balance < bet_amount {
        return Err(ErrorCode::InsufficientFunds);
    }
    let required_pool = slots_state.min_pool_threshold.saturating_add(
        slots_state.max_payout_per_spin,
    );
    if slots_state.total_pool < required_pool {
        return Err(ErrorCode::InsufficientPool);
    }
    if treasury_balance < required_pool {
        return Err(ErrorCode::InsufficientPool);
    }
    let previous_slot = if current_slot > 0 {
        current_slot - 1
    } else {
        0
    };
    if !(seed_slot == current_slot || seed_slot == previous_slot) {
        return Err(ErrorCode::RandomnessNotResolved);
    }

    let new_wagered = match slots_state.total_wagered.checked_add(bet_amount) {
        Some(v) => v,
        None => {
            return Err(ErrorCode::MathOverflow);
        },
    };
    let new_pool = match slots_state.total_pool.checked_add(bet_amount) {
        Some(v) => v,
        None => {
            return Err(ErrorCode::MathOverflow);
        },
    };
    let mut new_jackpots = slots_state.jackpots;
    match apply_jackpot_contributions(&mut new_jackpots, bet_amount) {
        Ok(()) => {},
        Err(e) => {
            return Err(e);
        },
    }

    slots_state.total_wagered = new_wagered;
    slots_state.total_pool = new_pool;
    slots_state.jackpots = new_jackpots;

    player_state.randomness_account = randomness_account;
    player_state.pending_bet_amount = bet_amount;
    player_state.has_pending_spin = true;

    Ok(
        SpinCommitted {
            user: player_state.owner,
            bet_amount: bet_amount,
            randomness_account: randomness_account,
        },
    )
}

/// Settles a pending spin against the revealed randomness: expands the
/// seed into three reel symbols and a jackpot roll, applies the RTP policy
/// and the solvency cap, resolves a possible jackpot, updates the counters
/// and clears the commitment. The host passes `None` while the value is
/// unrevealed and must transfer the reported total payout exactly when this
/// returns the settled event.
pub fn settle_spin(
    slots_state: &mut SlotsState,
    player_state: &mut PlayerState,
    randomness_account: u64,
    revealed: Option<&[u8]>,
    treasury_balance: u64,
) -> (result: Result<(SpinSettled, RTPUpdate), ErrorCode>)
    requires
        state_wf(*old(slots_state)),
        player_wf(*old(player_state)),
    ensures
        ({
            let (s2, p2, r) = spec_settle_spin(
                *old(slots_state),
                *old(player_state),
                randomness_account,
                opt_bytes_view(revealed),
                treasury_balance,
            );
            *final(slots_state) == s2 && *final(player_state) == p2 && result == r
        }),
        state_wf(*final(slots_state)),
        player_wf(*final(player_state)),
{
    if !slots_state.initialized {
        return Err(ErrorCode::Uninitialized);
    }
    if slots_state.paused {
        return Err(ErrorCode::GamePaused);
    }
    if !player_state.has_pending_spin {
        return Err(ErrorCode::NoPendingSpin);
    }
    if player_state.randomness_account != randomness_account {
        return Err(ErrorCode::RandomnessAccountMismatch);
    }
    let bet_amount = player_state.pending_bet_amount;
    if bet_amount == 0 {
        return Err(ErrorCode::InvalidBetAmount);
    }
    let bytes = match revealed {
        Some(b) => b,
        None => {
            return Err(ErrorCode::RandomnessNotResolved);
        },
    };
    if bytes.len() < 8 {
        return Err(ErrorCode::RandomnessParseFailed);
    }

    let first_eight = slice_subrange(bytes, 0, 8);
    let mut seed = u64_from_le_bytes(first_eight);

    let sym1 = generate_weighted_symbol(next_random_u64(&mut seed));
    let sym2 = generate_weighted_symbol(next_random_u64(&mut seed));
    let sym3 = generate_weighted_symbol(next_random_u64(&mut seed));
    let symbols = [sym1, sym2, sym3];

    let theoretical = match calculate_payout_3oak(symbols, bet_amount) {
        Ok(v) => v,
        Err(e) => {
            return Err(e);
        },
    };
    let adjusted = apply_rtp_adjustment(
        slots_state.total_spins,
        slots_state.total_wagered,
        slots_state.total_payout,
        slots_state.house_edge_bps,
        bet_amount,
        theoretical,
    );
    let affordable = max_total_affordable(
        slots_state.total_pool,
        slots_state.min_pool_threshold,
        slots_state.max_payout_per_spin,
    );

    if affordable == 0 {
        let new_spins = match slots_state.total_spins.checked_add(1) {
            Some(v) => v,
            None => {
                return Err(ErrorCode::MathOverflow);
            },
        };
        slots_state.total_spins = new_spins;
        slots_state.house_profit = if slots_state.total_wagered >= slots_state.total_payout {
            slots_state.total_wagered - slots_state.total_payout
        } else {
            0
        };
        if slots_state.total_wagered > 0 {
            proof {
                lemma_rtp_product_bounded(slots_state.total_payout);
            }
            slots_state.current_rtp_bps = ((((slots_state.total_payout as u128) * (
            RTP_BPS_DENOMINATOR as u128)) / (slots_state.total_wagered as u128))
                % 0x1_0000_0000u128) as u32;
        }
        player_state.has_pending_spin = false;
        player_state.pending_bet_amount = 0;
        player_state.randomness_account = 0;
        return Ok(
            (
                SpinSettled {
                    user: player_state.owner,
                    randomness_account: randomness_account,
                    symbols: symbols,
                    base_payout: 0,
                    jackpot_payout: 0,
                    total_payout: 0,
                },
                RTPUpdate {
                    total_spins: slots_state.total_spins,
                    total_wagered: slots_state.total_wagered,
                    total_payout: slots_state.total_payout,
                    house_profit: slots_state.house_profit,
                    current_rtp_bps: slots_state.current_rtp_bps,
                },
            ),
        );
    }

    let base_payout = if adjusted <= affordable {
        adjusted
    } else {
        affordable
    };
    let remaining_for_jackpot = affordable - base_payout;

    let mut new_jackpots = slots_state.jackpots;
    let jackpot_payout = if remaining_for_jackpot > 0 {
        proof {
            lemma_jackpot_all_or_nothing(slots_state.jackpots, seed, remaining_for_jackpot);
        }
        match maybe_hit_jackpot(&mut new_jackpots, &mut seed, remaining_for_jackpot) {
            Ok(v) => v,
            Err(e) => {
                return Err(e);
            },
        }
    } else {
        0
    };

    let total_payout_spin = match base_payout.checked_add(jackpot_payout) {
        Some(v) => v,
        None => {
            return Err(ErrorCode::MathOverflow);
        },
    };

    let mut new_total_payout = slots_state.total_payout;
    let mut new_total_pool = slots_state.total_pool;
    if total_payout_spin > 0 {
        if treasury_balance < total_payout_spin {
            return Err(ErrorCode::InsufficientPool);
        }
        if slots_state.total_pool < total_payout_spin {
            return Err(ErrorCode::InsufficientPool);
        }
        new_total_payout = match slots_state.total_payout.checked_add(total_payout_spin) {
            Some(v) => v,
            None => {
                return Err(ErrorCode::MathOverflow);
            },
        };
        new_total_pool = slots_state.total_pool - total_payout_spin;
    }
    let new_spins = match slots_state.total_spins.checked_add(1) {
        Some(v) => v,
        None => {
            return Err(ErrorCode::MathOverflow);
        },
    };

    slots_state.total_payout = new_total_payout;
    slots_state.total_pool = new_total_pool;
    slots_state.jackpots = new_jackpots;
    slots_state.total_spins = new_spins;
    slots_state.house_profit = if slots_state.total_wagered >= new_total_payout {
        slots_state.total_wagered - new_total_payout
    } else {
        0
    };
    if slots_state.total_wagered > 0 {
        proof {
            lemma_rtp_product_bounded(new_total_payout);
        }
        slots_state.current_rtp_bps = ((((new_total_payout as u128) * (
        RTP_BPS_DENOMINATOR as u128)) / (slots_state.total_wagered as u128)) % 0x1_0000_0000u128)
            as u32;
    }

    player_state.has_pending_spin = false;
    player_state.pending_bet_amount = 0;
    player_state.randomness_account = 0;

    Ok(
        (
            SpinSettled {
                user: player_state.owner,
                randomness_account: randomness_account,
                symbols: symbols,
                base_payout: base_payout,
                jackpot_payout: jackpot_payout,
                total_payout: total_payout_spin,
            },
            RTPUpdate {
                total_spins: slots_state.total_spins,
                total_wagered: slots_state.total_wagered,
                total_payout: slots_state.total_payout,
                house_profit: slots_state.house_profit,
                current_rtp_bps: slots_state.current_rtp_bps,
            },
        ),
    )
}

/// The complete effect of a pool deposit: the pool grown by the amount and
/// the deposit event, or an error with the state exactly unchanged.
pub open spec fn spec_add_to_pool(s: SlotsState, user: u64, amount: u64, user_balance: u64) -> (
    SlotsState,
    Result<PoolDeposit, ErrorCode>,
) {
    if !s.initialized {
        (s, Err(ErrorCode::Uninitialized))
    } else if amount == 0 {
        (s, Err(ErrorCode::InvalidAmount))
    } else if user_balance < amount {
        (s, Err(ErrorCode::InsufficientFunds))
    } else if s.total_pool + amount > u64::MAX {
        (s, Err(ErrorCode::MathOverflow))
    } else {
        (
            SlotsState { total_pool: (s.total_pool + amount) as u64, ..s },
            Ok(
                PoolDeposit {
                    user: user,
                    amount: amount,
                    new_pool: (s.total_pool + amount) as u64,
                },
            ),
        )
    }
}

/// The complete effect of an authority withdrawal: the pool shrunk by the
/// amount when it leaves the minimum threshold and every jackpot balance
/// covered, or an error with the state exactly unchanged.
pub open spec fn spec_claim_payout(
    s: SlotsState,
    authority: u64,
    amount: u64,
    treasury_balance: u64,
) -> (SlotsState, Result<(), ErrorCode>) {
    if !s.initialized {
        (s, Err(ErrorCode::Uninitialized))
    } else if amount == 0 {
        (s, Err(ErrorCode::InvalidAmount))
    } else if authority != s.authority {
        (s, Err(ErrorCode::Unauthorized))
    } else {
        match spec_total_jackpot_amounts(s.jackpots) {
            Err(e) => (s, Err(e)),
            Ok(jackpot_total) => {
                if s.min_pool_threshold + jackpot_total > u64::MAX {
                    (s, Err(ErrorCode::MathOverflow))
                } else {
                    let must_keep = (s.min_pool_threshold + jackpot_total) as u64;
                    let available = sat_sub_u64(s.total_pool, must_keep);
                    if amount > available {
                        (s, Err(ErrorCode::InsufficientPool))
                    } else if treasury_balance < amount {
                        (s, Err(ErrorCode::InsufficientPool))
                    } else {
                        (SlotsState { total_pool: (s.total_pool - amount) as u64, ..s }, Ok(()))
                    }
                }
            },
        }
    }
}

/// Deposits funds into the pool; anyone may top it up. The host must
/// perform the matching transfer exactly when this returns the deposit
/// event.
pub fn add_to_pool(slots_state: &mut SlotsState, user: u64, amount: u64, user_balance: u64) -> (result:
    Result<PoolDeposit, ErrorCode>)
    requires
        state_wf(*old(slots_state)),
    ensures
        ({
            let (s2, r) = spec_add_to_pool(*old(slots_state), user, amount, user_balance);
            *final(slots_state) == s2 && result == r
        }),
        state_wf(*final(slots_state)),
{
    if !slots_state.initialized {
        return Err(ErrorCode::Uninitialized);
    }
    if amount == 0 {
        return Err(ErrorCode::InvalidAmount);
    }
    if user_balance < amount {
        return Err(ErrorCode::InsufficientFunds);
    }
    let new_pool = match slots_state.total_pool.checked_add(amount) {
        Some(v) => v,
        None => {
            return Err(ErrorCode::MathOverflow);
        },
    };
    slots_state.total_pool = new_pool;
    Ok(PoolDeposit { user: user, amount: amount, new_pool: new_pool })
}

/// Withdraws from the pool, authority only. The withdrawal never draws the
/// pool below the minimum threshold plus the full jackpot balances, so the
/// operator can never drain what the jackpots could owe. The host performs
/// the matching transfer exactly when this returns success.
pub fn claim_payout(
    slots_state: &mut SlotsState,
    authority: u64,
    amount: u64,
    treasury_balance: u64,
) -> (result: Result<(), ErrorCode>)
    requires
        state_wf(*old(slots_state)),
    ensures
        ({
            let (s2, r) = spec_claim_payout(*old(slots_state), authority, amount, treasury_balance);
            *final(slots_state) == s2 && result == r
        }),
        state_wf(*final(slots_state)),
{
    if !slots_state.initialized {
        return Err(ErrorCode::Uninitialized);
    }
    if amount == 0 {
        return Err(ErrorCode::InvalidAmount);
    }
    if authority != slots_state.authority {
        return Err(ErrorCode::Unauthorized);
    }
    let jackpot_total = match total_jackpot_amounts(&slots_state.jackpots) {
        Ok(v) => v,
        Err(e) => {
            return Err(e);
        },
    };
    let must_keep = match slots_state.min_pool_threshold.checked_add(jackpot_total) {
        Some(v) => v,
        None => {
            return Err(ErrorCode::MathOverflow);
        },
    };
    let available_for_claim = if slots_state.total_pool >= must_keep {
        slots_state.total_pool - must_keep
    } else {
        0
    };
    if amount > available_for_claim {
        return Err(ErrorCode::InsufficientPool);
    }
    if treasury_balance < amount {
        return Err(ErrorCode::InsufficientPool);
    }
    slots_state.total_pool = slots_state.total_pool - amount;
    Ok(())
}

/// Toggles the pause flag, authority only. The returned event carries the
/// new position of the switch.
pub fn emergency_pause(slots_state: &mut SlotsState, authority: u64) -> (result: Result<
    EmergencyAction,
    ErrorCode,
>)
    requires
        state_wf(*old(slots_state)),
    ensures
        !old(slots_state).initialized ==> result == Err::<EmergencyAction, ErrorCode>(
            ErrorCode::Uninitialized,
        ) && *final(slots_state) == *old(slots_state),
        old(slots_state).initialized && authority != old(slots_state).authority ==> result == Err::<
            EmergencyAction,
            ErrorCode,
        >(ErrorCode::Unauthorized) && *final(slots_state) == *old(slots_state),
        old(slots_state).initialized && authority == old(slots_state).authority ==> {
            &&& *final(slots_state) == (SlotsState { paused: !old(slots_state).paused, ..*old(
                slots_state,
            ) })
            &&& result matches Ok(action) && action.authority == authority && action.action@ == (
            if !old(slots_state).paused {
                "paused"@
            } else {
                "resumed"@
            })
        },
        state_wf(*final(slots_state)),
{
    broadcast use vstd::string::group_string_axioms;

    if !slots_state.initialized {
        return Err(ErrorCode::Uninitialized);
    }
    if authority != slots_state.authority {
        return Err(ErrorCode::Unauthorized);
    }
    slots_state.paused = !slots_state.paused;
    let action: String = if slots_state.paused {
        "paused".to_string()
    } else {
        "resumed".to_string()
    };
    Ok(EmergencyAction { action: action, authority: authority })
}

/// A player can never hold two simultaneous commitments: a request
/// succeeds only from the idle state and fills the single pending slot, and
/// a request against an occupied slot (once the game gate and bet checks
/// pass) is rejected with both states unchanged.
pub proof fn lemma_single_pending_commitment(
    s: SlotsState,
    p: PlayerState,
    randomness_account: u64,
    bet_amount: u64,
    user_balance: u64,
    treasury_balance: u64,
    seed_slot: u64,
    current_slot: u64,
)
    ensures
        ({
            let (s2, p2, r) = spec_request_spin(s, p, randomness_account, bet_amount, user_balance,
                treasury_balance, seed_slot, current_slot);
            &&& r is Ok ==> !p.has_pending_spin && p2.has_pending_spin && p2.pending_bet_amount
                == bet_amount && p2.randomness_account == randomness_account
            &&& s.initialized && !s.paused && 0 < bet_amount <= s.max_payout_per_spin
                && p.has_pending_spin ==> r == Err::<SpinCommitted, ErrorCode>(
                ErrorCode::PendingSpinExists,
            ) && s2 == s && p2 == p
        }),
{
}

/// Settling clears the pending slot unconditionally: whenever a settlement
/// succeeds — even with a zero payout — the player returns to the idle
/// state with no commitment recorded.
pub proof fn lemma_settle_clears_pending(
    s: SlotsState,
    p: PlayerState,
    randomness_account: u64,
    revealed: Option<Seq<u8>>,
    treasury_balance: u64,
)
    ensures
        ({
            let (s2, p2, r) = spec_settle_spin(s, p, randomness_account, revealed,
                treasury_balance);
            r is Ok ==> !p2.has_pending_spin && p2.pending_bet_amount == 0
                && p2.randomness_account == 0
        }),
{
}

/// Settling a handle other than the recorded commitment is rejected with a
/// mismatch error and no state change: a commitment can only ever be
/// resolved against the randomness it was bound to.
pub proof fn lemma_settle_handle_mismatch_rejected(
    s: SlotsState,
    p: PlayerState,
    randomness_account: u64,
    revealed: Option<Seq<u8>>,
    treasury_balance: u64,
)
    requires
        s.initialized,
        !s.paused,
        p.has_pending_spin,
        randomness_account != p.randomness_account,
    ensures
        ({
            let (s2, p2, r) = spec_settle_spin(s, p, randomness_account, revealed,
                treasury_balance);
            r == Err::<(SpinSettled, RTPUpdate), ErrorCode>(ErrorCode::RandomnessAccountMismatch)
                && s2 == s && p2 == p
        }),
{
}

/// A request against a reserve below the admission bound (the minimum
/// threshold plus one worst-case payout) is rejected before any funds move,
/// with both states unchanged.
pub proof fn lemma_request_insufficient_reserve_rejected(
    s: SlotsState,
    p: PlayerState,
    randomness_account: u64,
    bet_amount: u64,
    user_balance: u64,
    treasury_balance: u64,
    seed_slot: u64,
    current_slot: u64,
)
    requires
        s.initialized,
        !s.paused,
        0 < bet_amount <= s.max_payout_per_spin,
        !p.has_pending_spin,
        user_balance >= bet_amount,
        (s.total_pool as int) < spec_required_pool(s),
    ensures
        ({
            let (s2, p2, r) = spec_request_spin(s, p, randomness_account, bet_amount, user_balance,
                treasury_balance, seed_slot, current_slot);
            r == Err::<SpinCommitted, ErrorCode>(ErrorCode::InsufficientPool) && s2 == s && p2 == p
        }),
{
}

/// With zero affordable capacity at settlement time the outcome is still
/// reported — the symbols stand in the settled event — but the payout is
/// zero, no jackpot resolution is attempted (the pools are untouched), and
/// the commitment still clears.
#[verifier::rlimit(50)]
pub proof fn lemma_settle_zero_capacity(
    s: SlotsState,
    p: PlayerState,
    randomness_account: u64,
    revealed: Option<Seq<u8>>,
    treasury_balance: u64,
)
    requires
        s.initialized,
        !s.paused,
        p.has_pending_spin,
        randomness_account == p.randomness_account,
        p.pending_bet_amount > 0,
        (p.pending_bet_amount as int) * 553 <= u64::MAX,
        revealed matches Some(bytes) && bytes.len() >= 8,
        spec_affordable(s.total_pool, s.min_pool_threshold, s.max_payout_per_spin) == 0,
        s.total_spins < u64::MAX,
    ensures
        ({
            let (s2, p2, r) = spec_settle_spin(s, p, randomness_account, revealed,
                treasury_balance);
            &&& r matches Ok(outcome)
            &&& r matches Ok(outcome) ==> outcome.0.total_payout == 0 && outcome.0.base_payout == 0
                && outcome.0.jackpot_payout == 0
            &&& s2.jackpots == s.jackpots
            &&& s2.total_pool == s.total_pool
            &&& s2.total_payout == s.total_payout
            &&& !p2.has_pending_spin
        }),
{
    let bet = p.pending_bet_amount;
    let seed0 = spec_u64_from_le_bytes(revealed.unwrap().subrange(0, 8));
    let draw1 = lcg_step(seed0);
    let draw2 = lcg_step(draw1);
    let draw3 = lcg_step(draw2);
    let sym1 = symbol_for((draw1 as int) % (TOTAL_WEIGHT as int)) as u8;
    let sym2 = symbol_for((draw2 as int) % (TOTAL_WEIGHT as int)) as u8;
    let sym3 = symbol_for((draw3 as int) % (TOTAL_WEIGHT as int)) as u8;
    assert(spec_base_payout(sym1, sym2, sym3, bet) is Ok) by {
        if (sym1 as int) < 12 && (sym2 as int) < 12 && (sym3 as int) < 12 && sym1 == sym2 && sym2
            == sym3 {
            assert(crate::payout::symbol_multiplier(sym1 as int) <= 553);
            assert((bet as int) * crate::payout::symbol_multiplier(sym1 as int) <= (bet as int)
                * 553) by (nonlinear_arith)
                requires bet >= 0 && crate::payout::symbol_multiplier(sym1 as int) <= 553;
        }
    }
}

/// The reserve never goes negative across any sequence of accepted
/// operations, and a settlement never draws it below the minimum threshold:
/// the pool after a settlement is at least the smaller of the old pool and
/// the threshold, a request or deposit only grows it, and a withdrawal
/// leaves at least the threshold plus every jackpot balance.
pub proof fn lemma_reserve_never_negative(
    s: SlotsState,
    p: PlayerState,
    randomness_account: u64,
    bet_amount: u64,
    user_balance: u64,
    treasury_balance: u64,
    seed_slot: u64,
    current_slot: u64,
    revealed: Option<Seq<u8>>,
)
    requires
        state_wf(s),
    ensures
        ({
            let (s2, p2, r) = spec_settle_spin(s, p, randomness_account, revealed,
                treasury_balance);
            &&& s2.total_pool >= 0
            &&& s2.total_pool >= (if s.total_pool <= s.min_pool_threshold {
                s.total_pool as int
            } else {
                s.min_pool_threshold as int
            })
        }),
        ({
            let (s2, p2, r) = spec_request_spin(s, p, randomness_account, bet_amount, user_balance,
                treasury_balance, seed_slot, current_slot);
            s2.total_pool >= s.total_pool
        }),
        ({
            let (s2, r) = spec_add_to_pool(s, randomness_account, bet_amount, user_balance);
            s2.total_pool >= s.total_pool
        }),
        ({
            let (s2, r) = spec_claim_payout(s, randomness_account, bet_amount, treasury_balance);
            r is Ok ==> s2.total_pool >= s.min_pool_threshold + (s.jackpots.mini.amount
                + s.jackpots.major.amount + s.jackpots.grand.amount)
        }),
{
    let (s2, p2, r) = spec_settle_spin(s, p, randomness_account, revealed, treasury_balance);
    if s.initialized && !s.paused && p.has_pending_spin && p.randomness_account
        == randomness_account && p.pending_bet_amount > 0 && revealed is Some
        && revealed.unwrap().len() >= 8 {
        let bet = p.pending_bet_amount;
        let seed0 = spec_u64_from_le_bytes(revealed.unwrap().subrange(0, 8));
        let draw1 = lcg_step(seed0);
        let draw2 = lcg_step(draw1);
        let draw3 = lcg_step(draw2);
        let sym1 = symbol_for((draw1 as int) % (TOTAL_WEIGHT as int)) as u8;
        let sym2 = symbol_for((draw2 as int) % (TOTAL_WEIGHT as int)) as u8;
        let sym3 = symbol_for((draw3 as int) % (TOTAL_WEIGHT as int)) as u8;
        if spec_base_payout(sym1, sym2, sym3, bet) is Ok {
            let theoretical = spec_base_payout(sym1, sym2, sym3, bet).unwrap();
            let adjusted = spec_adjusted_payout(s.total_spins, s.total_wagered, s.total_payout,
                s.house_edge_bps, bet, theoretical);
            let affordable = spec_affordable(s.total_pool, s.min_pool_threshold,
                s.max_payout_per_spin);
            if affordable > 0 {
                let base_payout = if adjusted <= affordable {
                    adjusted
                } else {
                    affordable
                };
                let remaining = affordable - base_payout;
                if remaining > 0 {
                    lemma_jackpot_all_or_nothing(s.jackpots, draw3, remaining as u64);
                }
            }
        }
    }
}

} // verus!
