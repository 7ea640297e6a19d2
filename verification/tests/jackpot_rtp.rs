use gorbagana_slots::errors::ErrorCode;
use gorbagana_slots::jackpot::apply_jackpot_contributions;
use gorbagana_slots::jackpot::award_jackpot;
use gorbagana_slots::jackpot::maybe_hit_jackpot;
use gorbagana_slots::jackpot::total_jackpot_amounts;
use gorbagana_slots::jackpot::JackpotPool;
use gorbagana_slots::jackpot::JackpotsConfig;
use gorbagana_slots::rng::next_random_u64;
use gorbagana_slots::rtp::apply_rtp_adjustment;

fn sample_jackpots() -> JackpotsConfig {
    JackpotsConfig {
        mini: JackpotPool { amount: 10_000_000, seed: 10_000_000, contrib_bps: 50, hit_weight: 500 },
        major: JackpotPool {
            amount: 100_000_000,
            seed: 100_000_000,
            contrib_bps: 100,
            hit_weight: 300,
        },
        grand: JackpotPool {
            amount: 1_000_000_000,
            seed: 1_000_000_000,
            contrib_bps: 50,
            hit_weight: 200,
        },
        hit_weight_total: 1000,
    }
}

#[test]
fn contributions_accrue_per_pool_share() {
    let mut j = sample_jackpots();
    assert_eq!(apply_jackpot_contributions(&mut j, 10_000), Ok(()));
    assert_eq!(j.mini.amount, 10_000_000 + 50);
    assert_eq!(j.major.amount, 100_000_000 + 100);
    assert_eq!(j.grand.amount, 1_000_000_000 + 50);
    // Seeds, shares and weights are untouched.
    assert_eq!(j.mini.seed, 10_000_000);
    assert_eq!(j.hit_weight_total, 1000);
}

#[test]
fn contributions_round_down_to_zero_on_tiny_bets() {
    let mut j = sample_jackpots();
    assert_eq!(apply_jackpot_contributions(&mut j, 100), Ok(()));
    // 100 * 50 / 10000 rounds down to zero; 100 * 100 / 10000 is one.
    assert_eq!(j.mini.amount, 10_000_000);
    assert_eq!(j.major.amount, 100_000_000 + 1);
    assert_eq!(j.grand.amount, 1_000_000_000);
}

#[test]
fn contribution_overflow_changes_nothing() {
    let mut j = sample_jackpots();
    j.major.amount = u64::MAX;
    j.major.seed = 0;
    let before = j;
    assert_eq!(apply_jackpot_contributions(&mut j, 10_000), Err(ErrorCode::MathOverflow));
    // Atomic: the mini pool, checked first, is not left half-updated.
    assert_eq!(j, before);
}

#[test]
fn total_jackpot_amounts_sums_the_pools() {
    let j = sample_jackpots();
    assert_eq!(total_jackpot_amounts(&j), Ok(1_110_000_000));

    let mut big = sample_jackpots();
    big.mini.amount = u64::MAX;
    big.mini.seed = 0;
    assert_eq!(total_jackpot_amounts(&big), Err(ErrorCode::MathOverflow));
}

#[test]
fn award_pays_all_or_nothing() {
    // The full amount exceeds the ceiling: no payment, nothing changes.
    let mut p = JackpotPool { amount: 500, seed: 100, contrib_bps: 50, hit_weight: 10 };
    assert_eq!(award_jackpot(&mut p, 499), 0);
    assert_eq!(p.amount, 500);

    // The full amount fits: the whole prize is paid, never a part.
    assert_eq!(award_jackpot(&mut p, 500), 500);
    assert_eq!(p.amount, p.seed);
    assert_eq!(p.amount, 100);

    // An empty pool pays nothing.
    let mut empty = JackpotPool { amount: 0, seed: 0, contrib_bps: 50, hit_weight: 10 };
    assert_eq!(award_jackpot(&mut empty, 1000), 0);
}

#[test]
fn no_jackpot_without_weights_or_capacity() {
    let mut j = sample_jackpots();
    j.mini.hit_weight = 0;
    j.major.hit_weight = 0;
    j.grand.hit_weight = 0;
    j.hit_weight_total = 0;
    let mut seed: u64 = 7;
    assert_eq!(maybe_hit_jackpot(&mut j, &mut seed, 1_000_000), Ok(0));
    assert_eq!(seed, 7);

    let mut j2 = sample_jackpots();
    let mut seed2: u64 = 7;
    assert_eq!(maybe_hit_jackpot(&mut j2, &mut seed2, 0), Ok(0));
    assert_eq!(j2, sample_jackpots());
}

#[test]
fn jackpot_draw_follows_the_hit_weights() {
    // Find seeds whose draw falls in each tier's weight band, then check
    // the drawn tier (and only it) is awarded and reset.
    let mut found_mini = false;
    let mut found_major = false;
    let mut found_grand = false;
    let mut start: u64 = 0;
    while !(found_mini && found_major && found_grand) {
        let mut probe = start;
        let r = (next_random_u64(&mut probe) as u32) % 1000;
        let mut j = sample_jackpots();
        // Make every prize affordable under the ceiling.
        let cap = 2_000_000_000;
        let mut seed = start;
        let won = maybe_hit_jackpot(&mut j, &mut seed, cap).unwrap();
        if r < 500 {
            found_mini = true;
            assert_eq!(won, 10_000_000);
            assert_eq!(j.mini.amount, j.mini.seed);
            assert_eq!(j.major, sample_jackpots().major);
            assert_eq!(j.grand, sample_jackpots().grand);
        } else if r < 800 {
            found_major = true;
            assert_eq!(won, 100_000_000);
            assert_eq!(j.major.amount, j.major.seed);
            assert_eq!(j.mini, sample_jackpots().mini);
        } else {
            found_grand = true;
            assert_eq!(won, 1_000_000_000);
            assert_eq!(j.grand.amount, j.grand.seed);
        }
        assert_eq!(seed, probe);
        start += 1;
    }
}

#[test]
fn jackpot_too_large_for_ceiling_is_not_paid() {
    // Ceiling below the smallest prize: whichever tier is drawn, nothing
    // is paid and nothing changes.
    let mut j = sample_jackpots();
    let before = j;
    let mut seed: u64 = 3;
    assert_eq!(maybe_hit_jackpot(&mut j, &mut seed, 9_999_999), Ok(0));
    assert_eq!(j, before);
}

#[test]
fn rtp_warmup_pays_theoretical_unmodified() {
    for spins in [0u64, 1, 50, 99] {
        assert_eq!(apply_rtp_adjustment(spins, 1_000_000, 0, 500, 100, 700), 700);
    }
    // The hundredth settlement leaves warm-up.
    assert_ne!(apply_rtp_adjustment(100, 1_000_000, 0, 500, 100, 700), 700);
}

#[test]
fn rtp_in_band_pays_theoretical_unmodified() {
    // Realized RTP 9500 bps equals the target (10000 - 500).
    assert_eq!(apply_rtp_adjustment(200, 10_000, 9_500, 500, 100, 700), 700);
    // Fifty basis points below target is still inside the band.
    assert_eq!(apply_rtp_adjustment(200, 20_000, 18_900, 500, 100, 700), 700);
}

#[test]
fn rtp_out_of_band_pays_needed_increment_under_caps() {
    // Realized RTP 9445 bps, 55 under target: the needed increment to
    // reach the target total of 19000 is 110, under every cap.
    assert_eq!(apply_rtp_adjustment(200, 20_000, 18_890, 500, 100, 700), 110);
    // Far under target: the needed increment is huge, the caps bind at
    // twice the bet.
    assert_eq!(apply_rtp_adjustment(200, 20_000, 0, 500, 100, 700), 200);
    // Above target: nothing is needed, the spin pays zero.
    assert_eq!(apply_rtp_adjustment(200, 20_000, 19_990, 500, 100, 700), 0);
}

#[test]
fn rtp_out_of_band_caps_hold() {
    // Cap by twice the theoretical payout when it is the smallest bound.
    let adjusted = apply_rtp_adjustment(200, 20_000, 0, 500, 1_000, 30);
    assert_eq!(adjusted, 60);
    for (bet, theoretical) in [(100u64, 700u64), (1, 1), (1_000, 30), (50, 0)] {
        let a = apply_rtp_adjustment(200, 20_000, 0, 500, bet, theoretical);
        assert!(a <= 2 * theoretical);
        assert!(a <= 2 * bet);
        assert!(a <= 10 * bet);
    }
}
