use gorbagana_slots::engine::add_to_pool;
use gorbagana_slots::engine::claim_payout;
use gorbagana_slots::engine::emergency_pause;
use gorbagana_slots::engine::request_spin;
use gorbagana_slots::errors::ErrorCode;
use gorbagana_slots::events::PoolDeposit;
use gorbagana_slots::events::SpinCommitted;
use gorbagana_slots::state::init_player;
use gorbagana_slots::state::initialize;

#[test]
fn initialize_sets_defaults() {
    let s = initialize(1, 2);
    assert_eq!(s.authority, 1);
    assert_eq!(s.treasury, 2);
    assert!(s.initialized);
    assert!(!s.paused);
    assert_eq!(s.total_spins, 0);
    assert_eq!(s.total_wagered, 0);
    assert_eq!(s.total_payout, 0);
    assert_eq!(s.house_profit, 0);
    assert_eq!(s.current_rtp_bps, 0);
    assert_eq!(s.house_edge_bps, 500);
    assert_eq!(s.total_pool, 0);
    assert_eq!(s.max_payout_per_spin, 1_000_000_000);
    assert_eq!(s.min_pool_threshold, 100_000_000);
    assert_eq!(s.jackpots.mini.amount, 10_000_000);
    assert_eq!(s.jackpots.mini.seed, 10_000_000);
    assert_eq!(s.jackpots.mini.contrib_bps, 50);
    assert_eq!(s.jackpots.mini.hit_weight, 500);
    assert_eq!(s.jackpots.major.amount, 100_000_000);
    assert_eq!(s.jackpots.major.contrib_bps, 100);
    assert_eq!(s.jackpots.major.hit_weight, 300);
    assert_eq!(s.jackpots.grand.amount, 1_000_000_000);
    assert_eq!(s.jackpots.grand.contrib_bps, 50);
    assert_eq!(s.jackpots.grand.hit_weight, 200);
    assert_eq!(s.jackpots.hit_weight_total, 1000);
}

#[test]
fn init_player_starts_idle() {
    let p = init_player(9);
    assert_eq!(p.owner, 9);
    assert_eq!(p.randomness_account, 0);
    assert_eq!(p.pending_bet_amount, 0);
    assert!(!p.has_pending_spin);
}

#[test]
fn add_to_pool_grows_reserve_and_reports() {
    let mut s = initialize(1, 2);
    let r = add_to_pool(&mut s, 3, 500, 1_000);
    assert_eq!(r, Ok(PoolDeposit { user: 3, amount: 500, new_pool: 500 }));
    assert_eq!(s.total_pool, 500);
}

#[test]
fn add_to_pool_rejects_bad_inputs() {
    let mut s = initialize(1, 2);
    assert_eq!(add_to_pool(&mut s, 3, 0, 1_000), Err(ErrorCode::InvalidAmount));
    assert_eq!(add_to_pool(&mut s, 3, 2_000, 1_000), Err(ErrorCode::InsufficientFunds));
    s.initialized = false;
    assert_eq!(add_to_pool(&mut s, 3, 500, 1_000), Err(ErrorCode::Uninitialized));
    assert_eq!(s.total_pool, 0);
}

#[test]
fn claim_payout_respects_threshold_and_jackpots() {
    let mut s = initialize(1, 2);
    assert_eq!(
        add_to_pool(&mut s, 3, 2_000_000_000, 2_000_000_000),
        Ok(PoolDeposit { user: 3, amount: 2_000_000_000, new_pool: 2_000_000_000 })
    );
    // Must keep the threshold plus every jackpot balance:
    // 100_000_000 + 1_110_000_000; the rest, 790_000_000, may leave.
    assert_eq!(
        claim_payout(&mut s, 1, 790_000_001, 2_000_000_000),
        Err(ErrorCode::InsufficientPool)
    );
    assert_eq!(claim_payout(&mut s, 1, 790_000_000, 2_000_000_000), Ok(()));
    assert_eq!(s.total_pool, 1_210_000_000);
    // Nothing above the protected floor is left to claim.
    assert_eq!(claim_payout(&mut s, 1, 1, 2_000_000_000), Err(ErrorCode::InsufficientPool));
}

#[test]
fn claim_payout_rejects_bad_callers_and_inputs() {
    let mut s = initialize(1, 2);
    add_to_pool(&mut s, 3, 2_000_000_000, 2_000_000_000).unwrap();
    assert_eq!(claim_payout(&mut s, 9, 100, 2_000_000_000), Err(ErrorCode::Unauthorized));
    assert_eq!(claim_payout(&mut s, 1, 0, 2_000_000_000), Err(ErrorCode::InvalidAmount));
    // A treasury actually holding less than the claim is refused.
    assert_eq!(claim_payout(&mut s, 1, 100, 99), Err(ErrorCode::InsufficientPool));
    assert_eq!(s.total_pool, 2_000_000_000);
}

#[test]
fn emergency_pause_toggles_and_names_the_action() {
    let mut s = initialize(1, 2);
    let e1 = emergency_pause(&mut s, 1).unwrap();
    assert!(s.paused);
    assert_eq!(e1.action, "paused".to_string());
    assert_eq!(e1.authority, 1);
    let e2 = emergency_pause(&mut s, 1).unwrap();
    assert!(!s.paused);
    assert_eq!(e2.action, "resumed".to_string());
    assert_eq!(emergency_pause(&mut s, 5), Err(ErrorCode::Unauthorized));
    assert!(!s.paused);
}

#[test]
fn request_spin_commits_and_accounts() {
    let mut s = initialize(1, 2);
    add_to_pool(&mut s, 3, 2_000_000_000, 2_000_000_000).unwrap();
    let mut p = init_player(3);
    let r = request_spin(&mut s, &mut p, 42, 100, 1_000, 2_000_000_000, 10, 10);
    assert_eq!(r, Ok(SpinCommitted { user: 3, bet_amount: 100, randomness_account: 42 }));
    assert_eq!(s.total_wagered, 100);
    assert_eq!(s.total_pool, 2_000_000_100);
    // Contributions of a 100 bet: 0 (mini), 1 (major), 0 (grand).
    assert_eq!(s.jackpots.mini.amount, 10_000_000);
    assert_eq!(s.jackpots.major.amount, 100_000_001);
    assert_eq!(s.jackpots.grand.amount, 1_000_000_000);
    assert!(p.has_pending_spin);
    assert_eq!(p.pending_bet_amount, 100);
    assert_eq!(p.randomness_account, 42);
}

#[test]
fn request_spin_accepts_previous_slot_freshness() {
    let mut s = initialize(1, 2);
    add_to_pool(&mut s, 3, 2_000_000_000, 2_000_000_000).unwrap();
    let mut p = init_player(3);
    assert!(request_spin(&mut s, &mut p, 42, 100, 1_000, 2_000_000_000, 9, 10).is_ok());
}

#[test]
fn request_spin_rejects_each_invalid_input() {
    let mut s = initialize(1, 2);
    add_to_pool(&mut s, 3, 2_000_000_000, 2_000_000_000).unwrap();
    let mut p = init_player(3);
    let funded = s;
    let idle = p;

    s.paused = true;
    assert_eq!(
        request_spin(&mut s, &mut p, 42, 100, 1_000, 2_000_000_000, 10, 10),
        Err(ErrorCode::GamePaused)
    );
    s = funded;
    assert_eq!(
        request_spin(&mut s, &mut p, 42, 0, 1_000, 2_000_000_000, 10, 10),
        Err(ErrorCode::InvalidBetAmount)
    );
    assert_eq!(
        request_spin(&mut s, &mut p, 42, 1_000_000_001, u64::MAX, 2_000_000_000, 10, 10),
        Err(ErrorCode::BetTooHigh)
    );
    assert_eq!(
        request_spin(&mut s, &mut p, 42, 100, 99, 2_000_000_000, 10, 10),
        Err(ErrorCode::InsufficientFunds)
    );
    // A stale handle: two or more slots old.
    assert_eq!(
        request_spin(&mut s, &mut p, 42, 100, 1_000, 2_000_000_000, 8, 10),
        Err(ErrorCode::RandomnessNotResolved)
    );
    // A treasury below the admission bound.
    assert_eq!(
        request_spin(&mut s, &mut p, 42, 100, 1_000, 1_099_999_999, 10, 10),
        Err(ErrorCode::InsufficientPool)
    );
    s.initialized = false;
    assert_eq!(
        request_spin(&mut s, &mut p, 42, 100, 1_000, 2_000_000_000, 10, 10),
        Err(ErrorCode::Uninitialized)
    );
    s = funded;
    assert_eq!(s, funded);
    assert_eq!(p, idle);
}

#[test]
fn request_spin_rejected_below_reserve_admission_bound() {
    // The pool must already hold the threshold plus one worst-case payout
    // before a bet is accepted; below that the request is rejected before
    // any funds move.
    let mut s = initialize(1, 2);
    add_to_pool(&mut s, 3, 1_099_999_999, 2_000_000_000).unwrap();
    let before = s;
    let mut p = init_player(3);
    assert_eq!(
        request_spin(&mut s, &mut p, 42, 100, 1_000, 2_000_000_000, 10, 10),
        Err(ErrorCode::InsufficientPool)
    );
    assert_eq!(s, before);
    assert!(!p.has_pending_spin);
    // One more unit of reserve and the same request is accepted.
    add_to_pool(&mut s, 3, 1, 1_000).unwrap();
    assert!(request_spin(&mut s, &mut p, 42, 100, 1_000, 2_000_000_000, 10, 10).is_ok());
}

#[test]
fn request_spin_rejects_second_commitment() {
    let mut s = initialize(1, 2);
    add_to_pool(&mut s, 3, 2_000_000_000, 2_000_000_000).unwrap();
    let mut p = init_player(3);
    request_spin(&mut s, &mut p, 42, 100, 1_000, 2_000_000_000, 10, 10).unwrap();
    let committed_state = s;
    let committed_player = p;
    assert_eq!(
        request_spin(&mut s, &mut p, 43, 200, 1_000, 2_000_000_000, 10, 10),
        Err(ErrorCode::PendingSpinExists)
    );
    assert_eq!(s, committed_state);
    assert_eq!(p, committed_player);
}
