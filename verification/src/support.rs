//! Autonomous-parameter formulas. Each function is pure: it takes the
//! observable on-chain state that determines a parameter and returns the
//! parameter's current effective value.

use vstd::prelude::*;
use vstd::arithmetic::div_mod::{
    lemma_div_by_self, lemma_div_pos_is_pos, lemma_fundamental_div_mod, lemma_mod_pos_bound,
    lemma_div_is_ordered, lemma_div_is_ordered_by_denominator, lemma_div_by_multiple,
    lemma_div_of0, lemma_multiply_divide_lt, lemma_multiply_divide_le, lemma_small_mod,
};
use vstd::set_lib::{lemma_int_range, lemma_len_subset, set_int_range};
use vstd::arithmetic::power::pow;
use vstd::arithmetic::mul::{lemma_mul_inequality, lemma_mul_is_commutative};
use crate::arith::{sat_add, sat_add_u64, sat_mul, sat_mul_u64, sat_sub, saturating_mul, saturating_mul_u64, min_u128};
use crate::constants::{
    BASE_TAX_BPS, BPS, DAY, HUNT_BASE_AGING_BLOCKS, HUNT_BASE_PROB_BPS, HUNT_MAX_AGING_BLOCKS,
    HUNT_RIPE_BONUS_BPS, MAX_TAX_BPS, MIN_TAX_BPS, TARGET_FOX_RATIO_BPS, TARGET_POPULATION,
};

verus! {

// =====================================================================
// Specifications
// =====================================================================

/// `v` clamped to `[lo, hi]` (the lower bound is tested first).
pub open spec fn clamp_spec(v: u128, lo: u128, hi: u128) -> u128 {
    if v < lo { lo } else if v > hi { hi } else { v }
}

/// The fox share of the population in bps, rounded down.
pub open spec fn fox_ratio_bps(fox: u128, farmer: u128) -> u128 {
    (sat_mul(fox, BPS) / sat_add(fox, farmer)) as u128
}

/// Safe-claim tax in bps: `BASE × TARGET_RATIO / ratio`, clamped to
/// `[MIN_TAX_BPS, MAX_TAX_BPS]`; `BASE_TAX_BPS` for an empty population
/// and `MAX_TAX_BPS` when the fox ratio rounds to zero.
pub open spec fn tax_bps_spec(fox: u128, farmer: u128) -> u128 {
    if sat_add(fox, farmer) == 0 {
        BASE_TAX_BPS
    } else if fox_ratio_bps(fox, farmer) == 0 {
        MAX_TAX_BPS
    } else {
        clamp_spec(
            ((BASE_TAX_BPS * TARGET_FOX_RATIO_BPS) / (fox_ratio_bps(fox, farmer) as int)) as u128,
            MIN_TAX_BPS,
            MAX_TAX_BPS,
        )
    }
}

/// Per-hunter success chance in bps: the base chance plus the ripe bonus
/// scaled by `unclaimed / moving_max`.
pub open spec fn per_hunter_prob_spec(unclaimed: u128, moving_max: u128) -> u128 {
    if moving_max == 0 {
        HUNT_BASE_PROB_BPS
    } else {
        sat_add(HUNT_BASE_PROB_BPS, (sat_mul(HUNT_RIPE_BONUS_BPS, unclaimed) / moving_max) as u128)
    }
}

/// Chance, in bps rounded down at every step, that all `n` hunters fail
/// when each fails with chance `fail_bps`.
pub open spec fn all_fail_bps(fail_bps: u128, n: nat) -> u128
    decreases n,
{
    if n == 0 {
        BPS
    } else {
        (sat_mul(all_fail_bps(fail_bps, (n - 1) as nat), fail_bps) / BPS) as u128
    }
}

/// Party success chance in bps: `1 - (1 - p)^n` in fixed point.
pub open spec fn party_success_spec(per_hunter_bps: u128, party_size: u128) -> u128 {
    sat_sub(BPS, all_fail_bps(sat_sub(BPS, per_hunter_bps), party_size as nat))
}

/// Failed-hunt rate in bps.
pub open spec fn fail_rate_bps(failed: u128, total: u128) -> u128 {
    (sat_mul(failed, BPS) / total) as u128
}

/// Aging in blocks of a failed hunter: the base aging plus the span to the
/// maximum scaled by the failed-hunt rate.
pub open spec fn aging_blocks_spec(failed: u128, total: u128) -> u64 {
    if total == 0 {
        HUNT_BASE_AGING_BLOCKS
    } else {
        sat_add_u64(
            HUNT_BASE_AGING_BLOCKS,
            (sat_mul((HUNT_MAX_AGING_BLOCKS - HUNT_BASE_AGING_BLOCKS) as u128, fail_rate_bps(failed, total)) / BPS) as u64,
        )
    }
}

/// Lifespan in blocks: `TARGET_POPULATION / mints_per_day` days, or
/// `TARGET_POPULATION` days when nothing is minted.
pub open spec fn lifespan_blocks_spec(mints_per_day: u128) -> u64 {
    if mints_per_day == 0 {
        sat_mul_u64(TARGET_POPULATION as u64, DAY)
    } else {
        sat_mul_u64((TARGET_POPULATION / mints_per_day) as u64, DAY)
    }
}

/// `r` is the integer square root of `n`.
pub open spec fn is_isqrt(r: int, n: int) -> bool {
    0 <= r && r * r <= n < (r + 1) * (r + 1)
}

/// Whether a commitment wins: `seed mod total < min(mints × weight, total)`.
pub open spec fn lottery_check_spec(weight: u128, total: u128, mints: u128, seed: u128) -> bool {
    if total == 0 || weight == 0 || mints == 0 {
        false
    } else {
        let num = if sat_mul(mints, weight) < total { sat_mul(mints, weight) } else { total };
        seed % total < num
    }
}

/// The role roll: the high 64 bits of the seed, modulo `BPS`.
pub open spec fn role_roll(seed: u128) -> u128 {
    ((seed >> 64u128) % BPS) as u128
}

/// Whether the seed assigns the fox role.
pub open spec fn role_is_fox_spec(seed: u128) -> bool {
    role_roll(seed) < TARGET_FOX_RATIO_BPS
}

// =====================================================================
// Executable formulas
// =====================================================================

/// Clamp `v` to `[lo, hi]`.
pub fn clamp(v: u128, lo: u128, hi: u128) -> (r: u128)
    ensures
        r == clamp_spec(v, lo, hi),
{
    if v < lo {
        lo
    } else if v > hi {
        hi
    } else {
        v
    }
}

/// Effective safe-claim tax rate (bps) given the current population.
pub fn compute_tax_bps(current_fox_count: u128, current_farmer_count: u128) -> (r: u128)
    ensures
        r == tax_bps_spec(current_fox_count, current_farmer_count),
{
    let total = current_fox_count.saturating_add(current_farmer_count);
    if total == 0 {
        return BASE_TAX_BPS;
    }
    let current_ratio_bps = saturating_mul(current_fox_count, BPS) / total;
    if current_ratio_bps == 0 {
        return MAX_TAX_BPS;
    }
    let raw = saturating_mul(BASE_TAX_BPS, TARGET_FOX_RATIO_BPS) / current_ratio_bps;
    clamp(raw, MIN_TAX_BPS, MAX_TAX_BPS)
}

/// Per-hunter success chance (bps) against a fox holding `unclaimed`
/// taxes, given the all-time maximum `moving_max`.
pub fn compute_per_hunter_prob_bps(unclaimed: u128, moving_max: u128) -> (r: u128)
    ensures
        r == per_hunter_prob_spec(unclaimed, moving_max),
{
    if moving_max == 0 {
        return HUNT_BASE_PROB_BPS;
    }
    let bonus = saturating_mul(HUNT_RIPE_BONUS_BPS, unclaimed) / moving_max;
    HUNT_BASE_PROB_BPS.saturating_add(bonus)
}

/// Party success chance (bps) given the per-hunter chance and the party
/// size: `1 - (1 - p)^N` in fixed point.
pub fn compute_party_success_bps(per_hunter_bps: u128, party_size: u128) -> (r: u128)
    ensures
        r == party_success_spec(per_hunter_bps, party_size),
{
    let fail_per_hunter = BPS.saturating_sub(per_hunter_bps);
    let mut all_fail = BPS;
    let mut i: u128 = 0;
    while i < party_size
        invariant
            i <= party_size,
            fail_per_hunter == sat_sub(BPS, per_hunter_bps),
            all_fail == all_fail_bps(fail_per_hunter, i as nat),
        decreases party_size - i,
    {
        all_fail = saturating_mul(all_fail, fail_per_hunter) / BPS;
        i = i.saturating_add(1);
    }
    BPS.saturating_sub(all_fail)
}

/// Aging (blocks) levied on each member of a failed hunting party, given
/// the failed and total hunt counts.
pub fn compute_aging_blocks(failed_recent: u128, recent_hunts_total: u128) -> (r: u64)
    ensures
        r == aging_blocks_spec(failed_recent, recent_hunts_total),
{
    if recent_hunts_total == 0 {
        return HUNT_BASE_AGING_BLOCKS;
    }
    let fail_rate_bps = saturating_mul(failed_recent, BPS) / recent_hunts_total;
    let span = HUNT_MAX_AGING_BLOCKS.saturating_sub(HUNT_BASE_AGING_BLOCKS) as u128;
    let bonus = (saturating_mul(span, fail_rate_bps) / BPS) as u64;
    HUNT_BASE_AGING_BLOCKS.saturating_add(bonus)
}

/// Animal lifespan (blocks) given the effective daily mint rate.
pub fn compute_lifespan_blocks(mints_per_day: u128) -> (r: u64)
    ensures
        r == lifespan_blocks_spec(mints_per_day),
{
    if mints_per_day == 0 {
        return saturating_mul_u64(TARGET_POPULATION as u64, DAY);
    }
    let days = (TARGET_POPULATION / mints_per_day) as u64;
    saturating_mul_u64(days, DAY)
}

/// Lottery weight of a commitment: the integer square root of the LP
/// committed.
pub fn compute_lottery_weight(lp_committed: u128) -> (r: u128)
    ensures
        is_isqrt(r as int, lp_committed as int),
{
    integer_sqrt(lp_committed)
}

/// For `x > 0` and any `s` with `s * s <= n`: `x + n / x >= 2 * s`
/// (the integer form of the arithmetic-geometric mean inequality).
proof fn lemma_newton_sum_bound(x: int, n: int, s: int)
    requires
        1 <= x,
        0 <= n,
        0 <= s,
        s * s <= n,
    ensures
        x + n / x >= 2 * s,
{
    let q = n / x;
    let r = n % x;
    lemma_fundamental_div_mod(n, x);
    lemma_mod_pos_bound(n, x);
    lemma_div_pos_is_pos(n, x);
    assert(n == x * q + r);
    assert(0 <= r < x);
    assert(q >= 0);
    // (x + q + 1)^2 - 4x(q + 1) = (x - q - 1)^2 >= 0
    assert((x + q + 1) * (x + q + 1) >= 4 * x * (q + 1)) by (nonlinear_arith)
        requires
            x >= 1,
            q >= 0,
    {
        assert((x + q + 1) * (x + q + 1) - 4 * x * (q + 1) == (x - q - 1) * (x - q - 1));
    }
    assert(4 * x * (q + 1) > 4 * n) by (nonlinear_arith)
        requires
            n == x * q + r,
            r < x,
    ;
    assert(x + q + 1 > 2 * s) by (nonlinear_arith)
        requires
            (x + q + 1) * (x + q + 1) > 4 * (s * s),
            x + q + 1 >= 0,
            s >= 0,
    ;
}

/// One Newton step from any positive `x` lands at or above the integer
/// square root: `(y + 1)^2 > n` for `y = (x + n / x) / 2` (saturating sum).
proof fn lemma_newton_step_above(x: u128, n: u128)
    requires
        1 <= x,
        1 <= n,
    ensures
        ({
            let y = sat_add(x, n / x) / 2;
            (y + 1) * (y + 1) > n
        }),
{
    let y = sat_add(x, n / x) / 2;
    if x + n / x > u128::MAX {
        assert(y == 0x7fff_ffff_ffff_ffff_ffff_ffff_ffff_ffffu128);
        assert((y + 1) * (y + 1) > u128::MAX) by (nonlinear_arith)
            requires
                y == 0x7fff_ffff_ffff_ffff_ffff_ffff_ffff_ffffu128,
        ;
    } else {
        assert(y == (x + n / x) / 2);
        if (y + 1) * (y + 1) <= n {
            lemma_newton_sum_bound(x as int, n as int, y + 1);
            assert(2 * y >= x + n / x - 1);
            assert(false);
        }
    }
}

/// When a Newton step does not go below `x`, `x` is at most the square
/// root: `x * x <= n`.
proof fn lemma_newton_fixed_point(x: u128, n: u128)
    requires
        1 <= x,
        sat_add(x, n / x) / 2 >= x,
    ensures
        x * x <= n,
{
    if x * x > n {
        assert(n / x < x) by {
            lemma_multiply_divide_lt(n as int, x as int, x as int);
        }
        if x + n / x > u128::MAX {
            assert(sat_add(x, n / x) / 2 == 0x7fff_ffff_ffff_ffff_ffff_ffff_ffff_ffffu128);
            assert(false);
        } else {
            assert((x + n / x) / 2 < x);
            assert(false);
        }
    }
}

/// Integer square root by Newton's method.
pub fn integer_sqrt(n: u128) -> (r: u128)
    ensures
        is_isqrt(r as int, n as int),
{
    if n == 0 {
        return 0;
    }
    let mut x = n;
    let mut y = x.saturating_add(1) / 2;
    proof {
        lemma_div_by_self(n as int);
        lemma_newton_step_above(x, n);
        assert((n + 1) * (n + 1) > n) by (nonlinear_arith)
            requires
                n >= 1,
        ;
    }
    while y < x
        invariant
            1 <= x,
            1 <= n,
            y == sat_add(x, n / x) / 2,
            (y + 1) * (y + 1) > n,
            (x + 1) * (x + 1) > n,
        decreases x,
    {
        x = y;
        proof {
            if x == 0 {
                assert((x + 1) * (x + 1) == 1) by (nonlinear_arith)
                    requires
                        x == 0,
                ;
            }
        }
        y = (x.saturating_add(n / x)) / 2;
        proof {
            lemma_newton_step_above(x, n);
        }
    }
    proof {
        lemma_newton_fixed_point(x, n);
    }
    x
}

/// Whether a commitment of `commitment_weight` wins, given the day's total
/// weight, the daily mint cap and the random seed.
pub fn lottery_check(commitment_weight: u128, total_weight: u128, mints_per_day: u128, seed_u128: u128) -> (r: bool)
    ensures
        r == lottery_check_spec(commitment_weight, total_weight, mints_per_day, seed_u128),
{
    if total_weight == 0 || commitment_weight == 0 || mints_per_day == 0 {
        return false;
    }
    let num = min_u128(saturating_mul(mints_per_day, commitment_weight), total_weight);
    let sample = seed_u128 % total_weight;
    sample < num
}

/// Role assignment at a win: fox when the high half of the seed rolls
/// below the target fox ratio.
pub fn role_is_fox(seed_u128: u128) -> (r: bool)
    ensures
        r == role_is_fox_spec(seed_u128),
{
    let role_roll = (seed_u128 >> 64u32) % BPS;
    role_roll < TARGET_FOX_RATIO_BPS
}

// =====================================================================
// Laws of the formulas
// =====================================================================

/// Clamping to a non-empty range lands in the range, and leaves a value
/// already in the range unchanged.
pub proof fn law_clamp_in_range(v: u128, lo: u128, hi: u128)
    requires
        lo <= hi,
    ensures
        lo <= clamp_spec(v, lo, hi) <= hi,
        lo <= v <= hi ==> clamp_spec(v, lo, hi) == v,
{
}

/// The safe-claim tax always lies between the floor and the ceiling: foxes
/// always earn something and farmers always keep half.
pub proof fn law_tax_bounded(fox: u128, farmer: u128)
    ensures
        MIN_TAX_BPS <= tax_bps_spec(fox, farmer) <= MAX_TAX_BPS,
{
}

/// Tax homeostasis: in a population of a given size, more foxes never
/// raise the tax (too many foxes, the tax drops; too few, it rises).
pub proof fn law_tax_nonincreasing_in_foxes(fox1: u128, farmer1: u128, fox2: u128, farmer2: u128)
    requires
        fox1 + farmer1 == fox2 + farmer2,
        fox1 + farmer1 <= u128::MAX,
        fox1 <= fox2,
    ensures
        tax_bps_spec(fox2, farmer2) <= tax_bps_spec(fox1, farmer1),
{
    let total = fox1 + farmer1;
    if total > 0 {
        assert(sat_mul(fox1, BPS) <= sat_mul(fox2, BPS)) by {
            lemma_mul_inequality(fox1 as int, fox2 as int, BPS as int);
        }
        lemma_div_is_ordered(sat_mul(fox1, BPS) as int, sat_mul(fox2, BPS) as int, total as int);
        let r1 = fox_ratio_bps(fox1, farmer1);
        let r2 = fox_ratio_bps(fox2, farmer2);
        assert(r1 <= r2);
        if r1 > 0 {
            lemma_div_is_ordered_by_denominator(
                (BASE_TAX_BPS * TARGET_FOX_RATIO_BPS) as int,
                r1 as int,
                r2 as int,
            );
        }
    }
}

/// The per-hunter chance against a fox whose taxes do not exceed the
/// all-time maximum lies between the base chance (empty fox) and the base
/// plus the ripe bonus, grows with the taxes, and reaches base plus bonus
/// for a maximally ripe fox (while `1500 × moving_max` fits in a `u128`).
pub proof fn law_per_hunter_prob_range(unclaimed: u128, unclaimed2: u128, moving_max: u128)
    requires
        unclaimed <= unclaimed2 <= moving_max,
        moving_max > 0,
    ensures
        HUNT_BASE_PROB_BPS <= per_hunter_prob_spec(unclaimed, moving_max),
        per_hunter_prob_spec(unclaimed2, moving_max) <= HUNT_BASE_PROB_BPS + HUNT_RIPE_BONUS_BPS,
        per_hunter_prob_spec(unclaimed, moving_max) <= per_hunter_prob_spec(unclaimed2, moving_max),
        per_hunter_prob_spec(0, moving_max) == HUNT_BASE_PROB_BPS,
        HUNT_RIPE_BONUS_BPS * moving_max <= u128::MAX ==> per_hunter_prob_spec(moving_max, moving_max)
            == HUNT_BASE_PROB_BPS + HUNT_RIPE_BONUS_BPS,
{
    let b = HUNT_RIPE_BONUS_BPS as int;
    let m = moving_max as int;
    assert(b * unclaimed <= b * unclaimed2) by {
        lemma_mul_inequality(unclaimed as int, unclaimed2 as int, b);
        lemma_mul_is_commutative(unclaimed as int, b);
        lemma_mul_is_commutative(unclaimed2 as int, b);
    }
    assert(b * unclaimed2 <= b * m) by {
        lemma_mul_inequality(unclaimed2 as int, m, b);
        lemma_mul_is_commutative(unclaimed2 as int, b);
        lemma_mul_is_commutative(m, b);
    }
    let s1 = sat_mul(HUNT_RIPE_BONUS_BPS, unclaimed) as int;
    let s2 = sat_mul(HUNT_RIPE_BONUS_BPS, unclaimed2) as int;
    assert(s1 <= s2 <= b * m);
    lemma_div_is_ordered(s1, s2, m);
    assert(s2 / m <= b) by {
        lemma_multiply_divide_le(s2, m, b);
        lemma_mul_is_commutative(m, b);
    }
    assert((b * m) / m == b) by {
        lemma_div_by_multiple(b, m);
        lemma_mul_is_commutative(m, b);
    }
    assert(0int / m == 0) by {
        lemma_div_of0(m);
    }
}

/// With a per-hunter failure chance of at most 100%, the chance that every
/// hunter fails stays within 100% and never grows with another hunter.
pub proof fn lemma_all_fail_shrinks(fail_bps: u128, n: nat)
    requires
        fail_bps <= BPS,
    ensures
        all_fail_bps(fail_bps, n) <= BPS,
        all_fail_bps(fail_bps, n + 1) <= all_fail_bps(fail_bps, n),
    decreases n,
{
    if n > 0 {
        lemma_all_fail_shrinks(fail_bps, (n - 1) as nat);
    }
    let a = all_fail_bps(fail_bps, n);
    assert(a * fail_bps <= a * BPS) by {
        lemma_mul_inequality(fail_bps as int, BPS as int, a as int);
        lemma_mul_is_commutative(fail_bps as int, a as int);
        lemma_mul_is_commutative(BPS as int, a as int);
    }
    assert(a * BPS <= BPS * BPS) by {
        lemma_mul_inequality(a as int, BPS as int, BPS as int);
    }
    assert((a * fail_bps) / (BPS as int) <= a) by {
        lemma_multiply_divide_le(a * fail_bps, BPS as int, a as int);
        lemma_mul_is_commutative(BPS as int, a as int);
    }
}

/// A party's chance of success never exceeds 100% and never shrinks as the
/// party grows.
pub proof fn law_party_success_monotone_in_size(per_hunter_bps: u128, n1: u128, n2: u128)
    requires
        n1 <= n2,
    ensures
        party_success_spec(per_hunter_bps, n1) <= party_success_spec(per_hunter_bps, n2),
        party_success_spec(per_hunter_bps, n2) <= BPS,
    decreases n2 - n1,
{
    let f = sat_sub(BPS, per_hunter_bps);
    if n1 < n2 {
        law_party_success_monotone_in_size(per_hunter_bps, n1, (n2 - 1) as u128);
        lemma_all_fail_shrinks(f, (n2 - 1) as nat);
    }
    lemma_all_fail_shrinks(f, n2 as nat);
}

/// When no more hunts failed than took place (and the hunt count times
/// `BPS` fits in a `u128`), the aging of a failed hunter lies between one
/// day and ten days, is one day when no hunt failed, ten days when every
/// hunt failed, and grows with the number of failed hunts.
pub proof fn law_aging_range(failed1: u128, failed2: u128, total: u128)
    requires
        failed1 <= failed2 <= total,
        total > 0,
        total * BPS <= u128::MAX,
    ensures
        HUNT_BASE_AGING_BLOCKS <= aging_blocks_spec(failed1, total),
        aging_blocks_spec(failed1, total) <= aging_blocks_spec(failed2, total),
        aging_blocks_spec(failed2, total) <= HUNT_MAX_AGING_BLOCKS,
        aging_blocks_spec(total, total) == HUNT_MAX_AGING_BLOCKS,
        aging_blocks_spec(0, total) == HUNT_BASE_AGING_BLOCKS,
{
    let t = total as int;
    let bps = BPS as int;
    assert(failed1 * bps <= failed2 * bps <= t * bps) by {
        lemma_mul_inequality(failed1 as int, failed2 as int, bps);
        lemma_mul_inequality(failed2 as int, t, bps);
    }
    lemma_div_is_ordered(failed1 * bps, failed2 * bps, t);
    assert((t * bps) / t == bps) by {
        lemma_div_by_multiple(bps, t);
        lemma_mul_is_commutative(t, bps);
    }
    lemma_div_is_ordered(failed2 * bps, t * bps, t);
    assert(0int / t == 0) by {
        lemma_div_of0(t);
    }
    let span = 1296int;
    let r1 = fail_rate_bps(failed1, total) as int;
    let r2 = fail_rate_bps(failed2, total) as int;
    assert(r1 <= r2 <= bps);
    assert(span * r1 <= span * r2 <= span * bps) by {
        lemma_mul_inequality(r1, r2, span);
        lemma_mul_inequality(r2, bps, span);
        lemma_mul_is_commutative(r1, span);
        lemma_mul_is_commutative(r2, span);
        lemma_mul_is_commutative(bps, span);
    }
    lemma_div_is_ordered(span * r1, span * r2, bps);
    lemma_div_is_ordered(span * r2, span * bps, bps);
    assert((span * bps) / bps == span) by {
        lemma_div_by_multiple(span, bps);
    }
    assert(0int / bps == 0) by {
        lemma_div_of0(bps);
    }
}

/// Lifespans shrink as the daily mint rate grows; with a positive rate the
/// lifespan is `TARGET_POPULATION / mints_per_day` whole days.
pub proof fn law_lifespan_nonincreasing(m1: u128, m2: u128)
    requires
        m1 <= m2,
    ensures
        lifespan_blocks_spec(m2) <= lifespan_blocks_spec(m1),
        m1 > 0 ==> lifespan_blocks_spec(m1) == (TARGET_POPULATION / m1) * (DAY as int),
{
    if m1 > 0 {
        lemma_div_is_ordered_by_denominator(TARGET_POPULATION as int, m1 as int, m2 as int);
        lemma_div_is_ordered_by_denominator(TARGET_POPULATION as int, 1, m1 as int);
        assert((TARGET_POPULATION / m1) * (DAY as int) <= 9000 * 144) by {
            lemma_mul_inequality((TARGET_POPULATION / m1) as int, 9000, DAY as int);
        }
        assert((TARGET_POPULATION / m2) * (DAY as int) <= (TARGET_POPULATION / m1) * (DAY as int)) by {
            lemma_mul_inequality((TARGET_POPULATION / m2) as int, (TARGET_POPULATION / m1) as int, DAY as int);
        }
    } else if m2 > 0 {
        lemma_div_is_ordered_by_denominator(TARGET_POPULATION as int, 1, m2 as int);
        assert((TARGET_POPULATION / m2) * (DAY as int) <= 9000 * 144) by {
            lemma_mul_inequality((TARGET_POPULATION / m2) as int, 9000, DAY as int);
        }
    }
}

/// A commitment of zero weight never wins; one whose scaled weight covers
/// the whole day's weight always wins; and, for a given seed, a heavier
/// commitment wins whenever a lighter one would.
pub proof fn law_lottery_weight(w1: u128, w2: u128, total: u128, mints: u128, seed: u128)
    requires
        w1 <= w2,
    ensures
        !lottery_check_spec(0, total, mints, seed),
        lottery_check_spec(w1, total, mints, seed) ==> lottery_check_spec(w2, total, mints, seed),
        (total > 0 && w1 > 0 && mints > 0 && mints * w1 >= total)
            ==> lottery_check_spec(w1, total, mints, seed),
{
    if total > 0 {
        lemma_mod_pos_bound(seed as int, total as int);
        assert(sat_mul(mints, w1) <= sat_mul(mints, w2)) by {
            lemma_mul_inequality(w1 as int, w2 as int, mints as int);
            lemma_mul_is_commutative(w1 as int, mints as int);
            lemma_mul_is_commutative(w2 as int, mints as int);
        }
    }
}

/// The integer square root is unique and grows with its argument, so a
/// larger LP commitment never gets a smaller lottery weight.
pub proof fn law_isqrt_monotone(r1: int, n1: int, r2: int, n2: int)
    requires
        is_isqrt(r1, n1),
        is_isqrt(r2, n2),
        n1 <= n2,
    ensures
        r1 <= r2,
        n1 == n2 ==> r1 == r2,
{
    if r1 > r2 {
        assert(r1 * r1 >= (r2 + 1) * (r2 + 1)) by (nonlinear_arith)
            requires
                r1 >= r2 + 1,
                r2 >= 0,
        {
        }
    }
    if n1 == n2 && r2 > r1 {
        assert(r2 * r2 >= (r1 + 1) * (r1 + 1)) by (nonlinear_arith)
            requires
                r2 >= r1 + 1,
                r1 >= 0,
        {
        }
    }
}

/// The seeds in `[0, total)` that win the lottery.
pub open spec fn winning_seeds(weight: u128, total: u128, mints: u128) -> Set<int> {
    Set::new(|s: int| 0 <= s < total && lottery_check_spec(weight, total, mints, s as u128))
}

/// The lottery depends on the seed only modulo the day's total weight, and
/// of the `total` residues exactly `min(mints * weight, total)` win: over a
/// uniform seed an entry wins with chance `min(1, mints * weight / total)`.
pub proof fn law_lottery_win_count(weight: u128, total: u128, mints: u128, seed: u128)
    requires
        total > 0,
        weight > 0,
        mints > 0,
    ensures
        lottery_check_spec(weight, total, mints, seed) == lottery_check_spec(weight, total, mints, seed % total),
        winning_seeds(weight, total, mints) == set_int_range(
            0,
            if mints * weight < total { mints * weight } else { total as int },
        ),
        winning_seeds(weight, total, mints).finite(),
        winning_seeds(weight, total, mints).len() == (if mints * weight < total { mints * weight } else { total as int }),
{
    let n: int = if mints * weight < total { mints * weight } else { total as int };
    lemma_mod_pos_bound(seed as int, total as int);
    lemma_small_mod((seed % total) as nat, total as nat);
    assert(0 <= mints * weight) by (nonlinear_arith)
        requires
            mints > 0,
            weight > 0,
    ;
    let num = if sat_mul(mints, weight) < total { sat_mul(mints, weight) } else { total };
    assert(num == n);
    assert forall|x: int| #![trigger winning_seeds(weight, total, mints).contains(x)]
        winning_seeds(weight, total, mints).contains(x) <==> set_int_range(0, n).contains(x) by {
        if 0 <= x < total {
            lemma_small_mod(x as nat, total as nat);
            assert((x as u128) % total == x);
        }
    }
    assert(winning_seeds(weight, total, mints) =~= set_int_range(0, n));
    lemma_int_range(0, n);
}

/// The high 64 bits of `x << 64` are `x`, for any `x` below 2^64.
proof fn lemma_high_half(x: u128)
    by (bit_vector)
    requires
        x < 0x1_0000_0000_0000_0000,
    ensures
        (x << 64u128) >> 64u128 == x,
{
}

/// Clearing the low 64 bits keeps the high 64 bits.
proof fn lemma_clear_low_half(seed: u128)
    by (bit_vector)
    ensures
        ((seed >> 64u128) << 64u128) >> 64u128 == seed >> 64u128,
{
}

/// The role depends on the high half of the seed alone, and a high half
/// `h` rolls `h % BPS`: the seed whose high half is 0 gives a fox, the one
/// whose high half is 1000 a farmer.
pub proof fn law_role_high_half(seed: u128, h: u64)
    ensures
        role_is_fox_spec(seed) == role_is_fox_spec((seed >> 64u128) << 64u128),
        role_roll((h as u128) << 64u128) == (h as u128) % BPS,
{
    lemma_clear_low_half(seed);
    lemma_high_half(h as u128);
}

/// The high halves in `[k, k + BPS)` whose roll is below the fox ratio.
pub open spec fn fox_window(k: int) -> Set<int> {
    Set::new(|h: int| k <= h < k + BPS && h % (BPS as int) < TARGET_FOX_RATIO_BPS)
}

/// The high halves in `[k, k + BPS)` that give a fox.
pub open spec fn fox_high_halves(k: int) -> Set<int> {
    Set::new(|h: int| k <= h < k + BPS && role_is_fox_spec((h as u128) << 64u128))
}

/// Every window of `BPS` consecutive integers from 0 on holds exactly
/// `TARGET_FOX_RATIO_BPS` whose residue is below the ratio.
proof fn lemma_fox_window_len(k: int)
    requires
        k >= 0,
    ensures
        fox_window(k).finite(),
        fox_window(k).len() == TARGET_FOX_RATIO_BPS,
    decreases k,
{
    let b = BPS as int;
    assert(fox_window(k).subset_of(set_int_range(k, k + b)));
    lemma_int_range(k, k + b);
    lemma_len_subset(fox_window(k), set_int_range(k, k + b));
    if k == 0 {
        assert forall|x: int| #![trigger fox_window(0).contains(x)]
            fox_window(0).contains(x) <==> set_int_range(0, TARGET_FOX_RATIO_BPS as int).contains(x) by {
            if 0 <= x < b {
                lemma_small_mod(x as nat, b as nat);
            }
        }
        assert(fox_window(0) =~= set_int_range(0, TARGET_FOX_RATIO_BPS as int));
        lemma_int_range(0, TARGET_FOX_RATIO_BPS as int);
    } else {
        let j = k - 1;
        lemma_fox_window_len(j);
        assert((b * 1 + j) % b == j % b) by {
            vstd::arithmetic::div_mod::lemma_mod_multiples_vanish(1, j, b);
        }
        if j % b < TARGET_FOX_RATIO_BPS {
            assert(fox_window(k) =~= fox_window(j).remove(j).insert(j + b));
        } else {
            assert(fox_window(k) =~= fox_window(j));
        }
    }
}

/// A tenth of the high halves give a fox: in any `BPS` consecutive high
/// halves, exactly `TARGET_FOX_RATIO_BPS` roll below the ratio.
pub proof fn law_role_share(k: int)
    requires
        0 <= k,
        k + BPS <= 0x1_0000_0000_0000_0000,
    ensures
        fox_high_halves(k).finite(),
        fox_high_halves(k).len() == TARGET_FOX_RATIO_BPS,
{
    assert forall|x: int| #![trigger fox_high_halves(k).contains(x)]
        fox_high_halves(k).contains(x) <==> fox_window(k).contains(x) by {
        if k <= x < k + BPS {
            lemma_high_half(x as u128);
        }
    }
    assert(fox_high_halves(k) =~= fox_window(k));
    lemma_fox_window_len(k);
}

/// The fixed-point chance that all of `n` hunters fail, each failing with
/// `f` bps, lies within `n` bps below the exact `BPS * (f / BPS)^n`;
/// scaled by `BPS^n` to stay in integers.
proof fn lemma_all_fail_error(f: u128, n: nat)
    requires
        f <= BPS,
    ensures
        pow(BPS as int, n) > 0,
        pow(f as int, n) >= 0,
        pow(BPS as int, n) * all_fail_bps(f, n) <= BPS * pow(f as int, n),
        BPS * pow(f as int, n) <= pow(BPS as int, n) * (all_fail_bps(f, n) + n),
    decreases n,
{
    reveal(pow);
    if n > 0 {
        let k = (n - 1) as nat;
        lemma_all_fail_error(f, k);
        lemma_all_fail_shrinks(f, k);
        let b = BPS as int;
        let fi = f as int;
        let a = all_fail_bps(f, k) as int;
        let a1 = all_fail_bps(f, n) as int;
        let x = pow(b, k);
        let y = pow(fi, k);
        let ki = k as int;
        assert(a * fi <= b * b) by (nonlinear_arith)
            requires
                0 <= a <= b,
                0 <= fi <= b,
        ;
        assert(0 <= a * fi) by (nonlinear_arith)
            requires
                0 <= a,
                0 <= fi,
        ;
        assert(a1 == (a * fi) / b);
        lemma_fundamental_div_mod(a * fi, b);
        lemma_mod_pos_bound(a * fi, b);
        assert(b * a1 <= a * fi < b * a1 + b);
        assert(pow(b, n) == b * x);
        assert(pow(fi, n) == fi * y);
        assert(b * x * a1 <= b * (fi * y)) by (nonlinear_arith)
            requires
                x > 0,
                fi >= 0,
                b * a1 <= a * fi,
                x * a <= b * y,
        {
            assert(x * (b * a1) <= x * (a * fi));
            assert(fi * (x * a) <= fi * (b * y));
        }
        assert(b * (fi * y) <= b * x * (a1 + ki + 1)) by (nonlinear_arith)
            requires
                x > 0,
                0 <= fi <= b,
                ki >= 0,
                a * fi < b * a1 + b,
                b * y <= x * (a + ki),
        {
            assert(fi * (b * y) <= fi * (x * (a + ki)));
            assert(x * (a * fi) <= x * (b * a1 + b));
            assert(x * (ki * fi) <= x * (ki * b));
        }
        assert(x > 0 && b > 0 ==> b * x > 0) by (nonlinear_arith);
        assert(fi >= 0 && y >= 0 ==> fi * y >= 0) by (nonlinear_arith);
    }
}

/// The fixed-point party chance is `1 - (1 - p)^n` rounded: never below
/// the exact chance, and above it by at most `n` bps. With
/// `f = BPS - p`, the exact chance in bps is `BPS - BPS * (f / BPS)^n`,
/// which both bounds state scaled by `BPS^n`.
pub proof fn law_party_success_error(per_hunter_bps: u128, party_size: u128)
    ensures
        ({
            let f = sat_sub(BPS, per_hunter_bps) as int;
            let n = party_size as nat;
            let scale = pow(BPS as int, n);
            let exact = scale * BPS - BPS * pow(f, n);
            &&& scale * party_success_spec(per_hunter_bps, party_size) >= exact
            &&& scale * party_success_spec(per_hunter_bps, party_size) <= exact + n * scale
        }),
{
    let f = sat_sub(BPS, per_hunter_bps);
    let n = party_size as nat;
    lemma_all_fail_error(f, n);
    lemma_all_fail_shrinks(f, n);
    let scale = pow(BPS as int, n);
    let a = all_fail_bps(f, n) as int;
    assert(party_success_spec(per_hunter_bps, party_size) == BPS - a);
    assert(scale * (BPS - a) == scale * BPS - scale * a) by (nonlinear_arith);
    assert(scale * (a + n) == scale * a + n * scale) by (nonlinear_arith);
}

/// The adaptive aging is the base aging while no hunt has failed and the
/// maximum once every hunt has failed.
pub proof fn law_aging_extremes(failed: u128, total: u128)
    ensures
        failed == 0 ==> aging_blocks_spec(failed, total) == HUNT_BASE_AGING_BLOCKS,
        (0 < failed == total && failed * BPS <= u128::MAX)
            ==> aging_blocks_spec(failed, total) == HUNT_MAX_AGING_BLOCKS,
{
    if failed == 0 && total > 0 {
        assert(sat_mul(failed, BPS) == 0);
        lemma_div_of0(total as int);
        assert(fail_rate_bps(failed, total) == 0);
    }
    if 0 < failed == total && failed * BPS <= u128::MAX {
        let f = failed as int;
        assert(sat_mul(failed, BPS) == f * BPS);
        assert((BPS * f) / f == BPS as int) by {
            lemma_div_by_multiple(BPS as int, f);
        }
        assert(f * BPS == BPS * f) by {
            lemma_mul_is_commutative(f, BPS as int);
        }
        assert(fail_rate_bps(failed, total) == BPS);
        assert(sat_mul((HUNT_MAX_AGING_BLOCKS - HUNT_BASE_AGING_BLOCKS) as u128, BPS) == 12_960_000);
    }
}

} // verus!
