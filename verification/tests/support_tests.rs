use foxkanes::constants::{
    BASE_TAX_BPS, BPS, DAY, HUNT_BASE_AGING_BLOCKS, HUNT_BASE_PROB_BPS, HUNT_MAX_AGING_BLOCKS,
    HUNT_RIPE_BONUS_BPS, MAX_TAX_BPS, MIN_TAX_BPS,
};
use foxkanes::constants::{deploy_target, deployed_id, FOXKANES_GAME, FOXKANES_ZAP};
use foxkanes::support::{
    clamp, compute_aging_blocks, compute_lifespan_blocks, compute_lottery_weight,
    compute_party_success_bps, compute_per_hunter_prob_bps, compute_tax_bps, integer_sqrt,
    lottery_check, role_is_fox,
};

#[test]
fn tax_at_target_equals_base() {
    // 900 farmers + 100 foxes = 10% fox ratio = target
    assert_eq!(compute_tax_bps(100, 900), BASE_TAX_BPS);
}

#[test]
fn tax_too_many_foxes_drops() {
    let t = compute_tax_bps(200, 800);
    assert!(t < BASE_TAX_BPS);
    assert!(t >= MIN_TAX_BPS);
}

#[test]
fn tax_too_few_foxes_rises() {
    let t = compute_tax_bps(50, 950);
    assert!(t > BASE_TAX_BPS);
    assert!(t <= MAX_TAX_BPS);
}

#[test]
fn tax_no_foxes_is_max() {
    assert_eq!(compute_tax_bps(0, 100), MAX_TAX_BPS);
}

#[test]
fn empty_fox_hunt_prob() {
    assert_eq!(compute_per_hunter_prob_bps(0, 1000), HUNT_BASE_PROB_BPS);
}

#[test]
fn ripe_fox_hunt_prob() {
    assert_eq!(
        compute_per_hunter_prob_bps(1000, 1000),
        HUNT_BASE_PROB_BPS + HUNT_RIPE_BONUS_BPS
    );
}

#[test]
fn party_success_monotone_in_size() {
    let p = HUNT_BASE_PROB_BPS;
    let s1 = compute_party_success_bps(p, 1);
    let s5 = compute_party_success_bps(p, 5);
    let s10 = compute_party_success_bps(p, 10);
    assert!(s1 <= s5);
    assert!(s5 <= s10);
    assert!(s10 < BPS);
}

#[test]
fn aging_with_no_hunts_is_base() {
    assert_eq!(compute_aging_blocks(0, 0), HUNT_BASE_AGING_BLOCKS);
}

#[test]
fn aging_with_all_failures_is_max() {
    assert_eq!(compute_aging_blocks(100, 100), HUNT_MAX_AGING_BLOCKS);
}

#[test]
fn lifespan_at_max_rate() {
    // 100 mints/day, 9000 target -> 90-day lifespan
    let l = compute_lifespan_blocks(100);
    assert_eq!(l, 90 * DAY);
}

#[test]
fn sqrt_basics() {
    assert_eq!(integer_sqrt(0), 0);
    assert_eq!(integer_sqrt(1), 1);
    assert_eq!(integer_sqrt(4), 2);
    assert_eq!(integer_sqrt(100), 10);
    assert_eq!(integer_sqrt(99), 9);
    assert_eq!(integer_sqrt(101), 10);
}

// ---------------------------------------------------------------------

#[test]
fn sqrt_extremes() {
    assert_eq!(integer_sqrt(2), 1);
    assert_eq!(integer_sqrt(3), 1);
    assert_eq!(integer_sqrt(u128::MAX), u64::MAX as u128);
    let big = (u64::MAX as u128) * (u64::MAX as u128);
    assert_eq!(integer_sqrt(big), u64::MAX as u128);
    assert_eq!(integer_sqrt(big - 1), u64::MAX as u128 - 1);
    assert_eq!(compute_lottery_weight(1_000_000), 1000);
}

#[test]
fn sqrt_is_monotone_on_samples() {
    let mut prev = 0;
    for n in 0u128..2000 {
        let r = integer_sqrt(n);
        assert!(r * r <= n && n < (r + 1) * (r + 1));
        assert!(r >= prev);
        prev = r;
    }
}

#[test]
fn tax_exact_values() {
    // 20% foxes: ratio 2000 bps -> 2000 * 1000 / 2000 = 1000
    assert_eq!(compute_tax_bps(200, 800), 1000);
    // 5% foxes: ratio 500 -> 4000
    assert_eq!(compute_tax_bps(50, 950), 4000);
    // all foxes: ratio 10000 -> 200, clamped up to the floor
    assert_eq!(compute_tax_bps(10, 0), MIN_TAX_BPS);
    // 1% foxes: ratio 100 -> 20000, clamped down to the ceiling
    assert_eq!(compute_tax_bps(1, 99), MAX_TAX_BPS);
    // empty population
    assert_eq!(compute_tax_bps(0, 0), BASE_TAX_BPS);
    // ratio rounding to zero: 1 fox in 20001
    assert_eq!(compute_tax_bps(1, 20_000), MAX_TAX_BPS);
}

#[test]
fn tax_nonincreasing_with_more_foxes() {
    let total = 1000u128;
    let mut prev = u128::MAX;
    for f in 0..=total {
        let t = compute_tax_bps(f, total - f);
        assert!(t <= prev);
        assert!(MIN_TAX_BPS <= t && t <= MAX_TAX_BPS);
        prev = t;
    }
}

#[test]
fn hunt_prob_values() {
    assert_eq!(compute_per_hunter_prob_bps(500, 1000), 1250);
    assert_eq!(compute_per_hunter_prob_bps(7, 0), HUNT_BASE_PROB_BPS);
    // taxes above the moving max go past the bonus
    assert_eq!(compute_per_hunter_prob_bps(2000, 1000), 3500);
}

#[test]
fn party_success_values() {
    // 1 - 0.95 = 5%
    assert_eq!(compute_party_success_bps(500, 1), 500);
    // 0.95^2 = 0.9025 -> 975
    assert_eq!(compute_party_success_bps(500, 2), 975);
    assert_eq!(compute_party_success_bps(500, 0), 0);
    assert_eq!(compute_party_success_bps(BPS, 3), BPS);
    assert_eq!(compute_party_success_bps(20_000, 1), BPS);
}

#[test]
fn aging_values() {
    // half the hunts failed: 144 + 1296 / 2
    assert_eq!(compute_aging_blocks(50, 100), 144 + 648);
    assert_eq!(compute_aging_blocks(0, 10), HUNT_BASE_AGING_BLOCKS);
    let mut prev = 0;
    for f in 0..=40u128 {
        let a = compute_aging_blocks(f, 40);
        assert!(a >= prev && a <= HUNT_MAX_AGING_BLOCKS);
        prev = a;
    }
}

#[test]
fn lifespan_values() {
    assert_eq!(compute_lifespan_blocks(0), 9000 * DAY);
    assert_eq!(compute_lifespan_blocks(1), 9000 * DAY);
    assert_eq!(compute_lifespan_blocks(7), (9000 / 7) * DAY);
    assert_eq!(compute_lifespan_blocks(10_000), 0);
    assert!(compute_lifespan_blocks(200) <= compute_lifespan_blocks(100));
}

#[test]
fn lottery_check_cases() {
    assert!(!lottery_check(0, 100, 100, 5));
    assert!(!lottery_check(5, 0, 100, 5));
    assert!(!lottery_check(5, 100, 0, 5));
    // 100 * 1 >= 100: always wins
    assert!(lottery_check(1, 100, 100, 99));
    // num = min(2 * 3, 1000) = 6
    assert!(lottery_check(3, 1000, 2, 1005));
    assert!(!lottery_check(3, 1000, 2, 1006));
    // a heavier commitment wins where a lighter one does
    assert!(lottery_check(4, 1000, 2, 1005));
}

#[test]
fn role_assignment() {
    assert!(role_is_fox(0));
    assert!(role_is_fox(999u128 << 64));
    assert!(!role_is_fox(1000u128 << 64));
    assert!(role_is_fox(10_500u128 << 64));
    // low bits do not matter
    assert!(!role_is_fox((5000u128 << 64) | 7));
}

#[test]
fn clamp_cases() {
    assert_eq!(clamp(5, 10, 20), 10);
    assert_eq!(clamp(25, 10, 20), 20);
    assert_eq!(clamp(15, 10, 20), 15);
    // lower bound tested first on an empty range
    assert_eq!(clamp(5, 20, 10), 20);
}

#[test]
fn deploy_ids() {
    assert_eq!(deploy_target(FOXKANES_GAME), (3, 0x200));
    assert_eq!(deployed_id(FOXKANES_ZAP), (4, 0x203));
}

#[test]
fn lottery_win_count_over_residues() {
    // min(mints * weight, total) of the `total` residues win
    let wins = (0u128..1000).filter(|s| lottery_check(3, 1000, 2, *s)).count();
    assert_eq!(wins, 6);
    let wins = (0u128..50).filter(|s| lottery_check(7, 50, 100, *s)).count();
    assert_eq!(wins, 50);
    // only the seed's residue modulo the total matters
    for s in [5u128, 6, 999, 123_456_789, u128::MAX] {
        assert_eq!(lottery_check(3, 1000, 2, s), lottery_check(3, 1000, 2, s % 1000));
    }
}

#[test]
fn role_share_per_window() {
    // a tenth of any 10000 consecutive high halves give a fox
    for start in [0u128, 1, 4321, 10_000, 987_654] {
        let foxes = (start..start + 10_000).filter(|h| role_is_fox(*h << 64)).count();
        assert_eq!(foxes, 1000);
    }
    // only the high half matters
    let seed = (1234u128 << 64) | 0xdead_beef;
    assert_eq!(role_is_fox(seed), role_is_fox((seed >> 64) << 64));
}

#[test]
fn party_success_close_to_exact() {
    // 1 - 0.95^3 = 14.2625%: the fixed point gives 1427 bps
    assert_eq!(compute_party_success_bps(500, 3), 1427);
    for (p, n) in [(500u128, 1u128), (500, 3), (1234, 5), (2000, 10), (7, 12), (9999, 4)] {
        let exact = (BPS as f64) * (1.0 - (1.0 - (p as f64) / (BPS as f64)).powi(n as i32));
        let got = compute_party_success_bps(p, n) as f64;
        assert!(got >= exact - 1e-6, "p={} n={}: {} < {}", p, n, got, exact);
        assert!(got <= exact + (n as f64) + 1e-6, "p={} n={}: {} > {} + n", p, n, got, exact);
    }
}
