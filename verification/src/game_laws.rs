//! Laws of the game that span its operations.

use vstd::prelude::*;
use vstd::arithmetic::div_mod::{
    lemma_div_by_multiple, lemma_div_is_ordered, lemma_fundamental_div_mod, lemma_mod_pos_bound,
    lemma_multiply_divide_le,
};
use vstd::arithmetic::mul::{lemma_mul_inequality, lemma_mul_is_commutative};
use crate::arith::{sat_add, sat_mul};
use crate::constants::{
    BPS, HARDCODED_MAX_DAILY_MINTS, HUNT_BASE_AGING_BLOCKS, HUNT_MAX_AGING_BLOCKS, MAX_TAX_BPS, PRECISION,
};
use crate::game::{day_id_spec, days_ok, seed_spec, set_hunt_flag_call, set_taxes_call, yield_spec, GameError, GameView};
use crate::game_hunts::{aged, shared_taxes, success_member_calls};
use crate::store::get_or_zero;
use crate::support::{aging_blocks_spec, law_aging_extremes, law_tax_bounded, tax_bps_spec};
use crate::types::{AlkaneId, AnimalDetails, CommitmentDetails};

verus! {

/// Initialization succeeds at most once: once it has succeeded, every
/// later call is refused as already initialized.
pub proof fn law_initialize_once(g: GameView, a: u128, c: u128, genesis: u128, a2: u128, c2: u128)
    requires
        g.initialize_error(a, c) is None,
    ensures
        g.after_initialize(a, c, genesis).initialize_error(a2, c2) == Some(GameError::AlreadyInitialized),
{
}

/// The lottery day never goes back as the chain grows.
pub proof fn law_day_id_monotone(genesis: u128, h1: u64, h2: u64)
    requires
        h1 <= h2,
    ensures
        day_id_spec(genesis, h1) <= day_id_spec(genesis, h2),
{
    if (h1 as u128) >= genesis {
        lemma_div_is_ordered(h1 - genesis, h2 - genesis, 144);
    }
}

/// A commit registers its receipt and hands out ids in sequence: the
/// commitment sequence moves one past the id the entry was given.
pub proof fn law_commit_registers(g: GameView, day_id: u128, weight: u128, nft: AlkaneId)
    requires
        g.commitment_seq < u128::MAX,
    ensures
        g.after_commit(day_id, weight, nft, g.commitment_seq).is_registered_commitment(nft),
        g.after_commit(day_id, weight, nft, g.commitment_seq).commitment_seq == g.commitment_seq + 1,
        get_or_zero(g.after_commit(day_id, weight, nft, g.commitment_seq).day_weight, day_id)
            == sat_add(get_or_zero(g.day_weight, day_id), weight),
{
}

/// A winning reveal grows the population by exactly one animal, of the
/// drawn role, and registers it.
pub proof fn law_mint_grows_population(g: GameView, nft: AlkaneId, day_id: u128, role: u128)
    requires
        g.fox_count < u128::MAX,
        g.farmer_count < u128::MAX,
        g.total_animals_minted < u128::MAX,
        g.animal_seq < u128::MAX,
    ensures
        ({
            let g2 = g.after_mint(nft, g.animal_seq, day_id, role);
            &&& g2.fox_count + g2.farmer_count == g.fox_count + g.farmer_count + 1
            &&& (role == 1 ==> g2.fox_count == g.fox_count + 1)
            &&& (role != 1 ==> g2.farmer_count == g.farmer_count + 1)
            &&& g2.is_registered_animal(nft)
            &&& g2.animal_seq == g.animal_seq + 1
            &&& g2.total_animals_minted == g.total_animals_minted + 1
        }),
{
}

/// No lottery day ever has more winners than the daily cap: the count of
/// a day's mints in any well-formed state is at most the cap.
pub proof fn law_daily_cap(g: GameView, day_id: u128)
    requires
        g.wf(),
    ensures
        get_or_zero(g.day_mints, day_id) <= HARDCODED_MAX_DAILY_MINTS,
{
    if g.day_mints.contains_key(day_id) {
        assert(g.day_mints[day_id] <= HARDCODED_MAX_DAILY_MINTS);
    }
}

/// Once a day has its cap of winners, no reveal for that day mints an
/// animal, whatever the draw; a mint on a day with room keeps the cap.
pub proof fn law_full_day_mints_nothing(g: GameView, height: u64, d: CommitmentDetails, nft: AlkaneId, role: u128)
    requires
        g.wf(),
    ensures
        get_or_zero(g.day_mints, d.lottery_day_id) == HARDCODED_MAX_DAILY_MINTS ==> !g.reveal_mints(height, d),
        g.day_has_room(d.lottery_day_id) ==> days_ok(g.after_mint(nft, g.animal_seq, d.lottery_day_id, role)),
{
}

/// A farmer's safe claim splits its yield exactly: the tax, at most half
/// of it, goes to the fox pool and the rest is paid out.
pub proof fn law_safe_claim_split(g: GameView, height: u64, id: AlkaneId, d: AnimalDetails)
    requires
        d.role == 0,
    ensures
        ({
            let y = yield_spec(height, d.last_claim_block);
            let tax = g.farmer_tax(y);
            let (g2, payout) = g.safe_claim(height, id, d);
            &&& tax <= y
            &&& payout + tax == y
            &&& g2 == g.after_distribute(tax)
            &&& g2.fox_pool_lifetime == sat_add(g.fox_pool_lifetime, tax)
            &&& g2.fox_pool_balance == sat_add(g.fox_pool_balance, tax)
        }),
{
    let y = yield_spec(height, d.last_claim_block);
    let bps = tax_bps_spec(g.fox_count, g.farmer_count);
    law_tax_bounded(g.fox_count, g.farmer_count);
    assert(bps <= MAX_TAX_BPS);
    let p = sat_mul(y, bps) as int;
    assert(p <= (BPS as int) * (y as int)) by {
        lemma_mul_inequality(bps as int, BPS as int, y as int);
        lemma_mul_is_commutative(bps as int, y as int);
        lemma_mul_is_commutative(BPS as int, y as int);
    }
    lemma_multiply_divide_le(p, BPS as int, y as int);
}

/// A farmer's risky claim is all or nothing: it keeps the whole yield
/// untaxed with the pool untouched, or pays nothing and the whole yield
/// goes to the fox pool.
pub proof fn law_risky_claim_all_or_nothing(g: GameView, height: u64, id: AlkaneId, d: AnimalDetails)
    requires
        d.role == 0,
    ensures
        ({
            let y = yield_spec(height, d.last_claim_block);
            let (g2, payout) = g.risky_claim(height, id, d);
            ||| (payout == y && g2 == g)
            ||| (payout == 0 && g2 == g.after_distribute(y))
        }),
{
}

/// A fox that has just claimed has nothing left to claim until new tax is
/// paid in: claiming twice in a row pays the second time nothing.
pub proof fn law_fox_claim_idempotent(g: GameView, id: AlkaneId)
    ensures
        g.after_fox_claim(id).fox_share(id) == 0,
        g.after_fox_claim(id).after_fox_claim(id) == g.after_fox_claim(id),
{
}

/// The fox pool never pays out more than was paid in: after `tax` is split
/// over `k` staked foxes, the shares those foxes can claim (each having
/// claimed up to date before) add up to at most `tax`.
pub proof fn law_pool_no_overdistribution(g: GameView, tax: u128, id: AlkaneId)
    requires
        g.staked_fox_count > 0,
        tax > 0,
        tax * PRECISION <= u128::MAX,
        g.tax_per_fox_acc + tax * PRECISION / (g.staked_fox_count as int) <= u128::MAX,
        get_or_zero(g.fox_ck, id) == g.tax_per_fox_acc,
    ensures
        g.staked_fox_count * g.after_distribute(tax).fox_share(id) <= tax,
{
    let k = g.staked_fox_count as int;
    let p = PRECISION as int;
    let t = tax as int;
    let add = (t * p) / k;
    let share = add / p;
    assert(g.after_distribute(tax).tax_per_fox_acc == g.tax_per_fox_acc + add);
    assert(g.after_distribute(tax).fox_share(id) == share) by {
        if add == 0 {
            assert(share == 0);
        }
    }
    // share * p <= add and add * k <= t * p, so k * share <= t
    assert(share * p <= add) by {
        vstd::arithmetic::div_mod::lemma_fundamental_div_mod(add, p);
        vstd::arithmetic::div_mod::lemma_mod_pos_bound(add, p);
    }
    assert(add * k <= t * p) by {
        vstd::arithmetic::div_mod::lemma_fundamental_div_mod(t * p, k);
        vstd::arithmetic::div_mod::lemma_mod_pos_bound(t * p, k);
        lemma_mul_is_commutative(add, k);
    }
    assert(k * share <= t) by (nonlinear_arith)
        requires
            share * p <= add,
            add * k <= t * p,
            p > 0,
            k > 0,
            share >= 0,
    {
        assert((k * share) * p <= t * p);
    }
}

/// A started hunt can be resolved: right after a hunt starts, resolving it
/// is not refused.
pub proof fn law_started_hunt_resolvable(
    g: GameView,
    height: u64,
    target: AlkaneId,
    td: AnimalDetails,
    ids: Seq<AlkaneId>,
    ds: Seq<AnimalDetails>,
)
    requires
        g.initiate_error(target, td, ids, ds) is None,
        g.hunt_seq < u128::MAX,
        g.lifetime_total_hunts < u128::MAX,
    ensures
        g.after_initiate(height, target, td, ids).resolve_error(g.next_hunt_id()) is None,
        g.after_initiate(height, target, td, ids).hunts[g.next_hunt_id()].members == ids,
{
}

/// A hunt resolves once: after it succeeds or fails, resolving it again is
/// refused as already resolved.
pub proof fn law_hunt_resolves_once(g: GameView, hunt_id: u128, chosen: AlkaneId)
    requires
        g.resolve_error(hunt_id) is None,
    ensures
        g.after_hunt_success(hunt_id, chosen).resolve_error(hunt_id) == Some(GameError::HuntAlreadyResolved),
        g.after_hunt_failure(hunt_id).resolve_error(hunt_id) == Some(GameError::HuntAlreadyResolved),
{
}

/// A successful hunt swaps roles without changing the fox count: the
/// target fox dies and a farmer becomes a fox, so the population shrinks
/// by exactly one farmer (and likewise among the staked animals).
pub proof fn law_hunt_success_population(g: GameView, hunt_id: u128, chosen: AlkaneId)
    requires
        g.fox_count >= 1,
        g.farmer_count >= 1,
        g.staked_fox_count >= 1,
        g.staked_farmer_count >= 1,
    ensures
        ({
            let g2 = g.after_hunt_success(hunt_id, chosen);
            &&& g2.fox_count == g.fox_count
            &&& g2.farmer_count == g.farmer_count - 1
            &&& g2.staked_fox_count == g.staked_fox_count
            &&& g2.staked_farmer_count == g.staked_farmer_count - 1
            &&& get_or_zero(g2.fox_ck, chosen) == g.tax_per_fox_acc
        }),
{
}

/// An expiry removes exactly one animal of its role from the population.
pub proof fn law_expire_shrinks_population(g: GameView, id: AlkaneId, role: u128)
    requires
        role == 1 ==> g.fox_count >= 1,
        role != 1 ==> g.farmer_count >= 1,
    ensures
        g.after_expire(id, role).fox_count + g.after_expire(id, role).farmer_count
            == g.fox_count + g.farmer_count - 1,
{
}

/// A fox earns only taxes paid after it stakes: right after staking, its
/// share of the pool is zero.
pub proof fn law_fresh_fox_earns_nothing_yet(g: GameView, id: AlkaneId)
    requires
        g.staked_fox_count < u128::MAX,
    ensures
        g.after_stake(id, 1).fox_share(id) == 0,
{
}

/// A live, idle, registered animal can be expired exactly from the end of
/// its effective lifespan (birth plus lifespan, less its hunt aging) on.
pub proof fn law_expire_timing(g: GameView, height: u64, id: AlkaneId, d: AnimalDetails)
    requires
        g.is_registered_animal(id),
        d.is_dead == 0,
        d.hunt_in_progress == 0,
    ensures
        g.expire_error(height, id, d) is None <==> height as u128 >= g.effective_end(id, d),
{
}

/// A fox's pool share is never at risk in a risky claim: on a lost flip it
/// is paid its share of the pool exactly (only its direct yield goes to
/// the pool), and on a won flip it is paid what a safe claim pays, its
/// yield plus its share.
pub proof fn law_risky_claim_fox_keeps_share(g: GameView, height: u64, id: AlkaneId, d: AnimalDetails)
    requires
        d.role == 1,
    ensures
        ({
            let (g2, payout) = g.risky_claim(height, id, d);
            &&& payout >= g.fox_share(id)
            &&& !g.risky_keeps(height, d) ==> payout == g.fox_share(id)
            &&& g.risky_keeps(height, d) ==> payout == g.safe_claim(height, id, d).1
            &&& g.risky_keeps(height, d) ==> g2 == g.safe_claim(height, id, d).0
        }),
{
}

/// A reveal's draw on a day of total weight `total`: nothing wins on a day
/// without weight or for an entry without weight; otherwise the entry wins
/// exactly when the seed's residue modulo `total` falls below the cap times
/// its weight, so an entry carrying at least `1 / cap` of the day's weight
/// always wins. With room on the day, a won draw mints.
pub proof fn law_reveal_draw(g: GameView, height: u64, d: CommitmentDetails)
    ensures
        ({
            let total = get_or_zero(g.day_weight, d.lottery_day_id);
            let seed = seed_spec(height, d.commitment_id, d.lottery_day_id);
            &&& (total == 0 || d.weight == 0) ==> !g.reveal_wins(height, d)
            &&& (total > 0 && d.weight > 0) ==> (g.reveal_wins(height, d)
                <==> seed % total < HARDCODED_MAX_DAILY_MINTS * d.weight)
            &&& (total > 0 && d.weight > 0 && HARDCODED_MAX_DAILY_MINTS * d.weight >= total)
                ==> g.reveal_wins(height, d)
            &&& g.day_has_room(d.lottery_day_id) ==> g.reveal_mints(height, d) == g.reveal_wins(height, d)
        }),
{
    let total = get_or_zero(g.day_weight, d.lottery_day_id);
    let seed = seed_spec(height, d.commitment_id, d.lottery_day_id);
    if total > 0 {
        lemma_mod_pos_bound(seed as int, total as int);
    }
}

/// Starting a hunt keeps the moving maximum of fox taxes: afterwards it is
/// the larger of what it was and the target's taxes, so it never drops.
pub proof fn law_initiate_keeps_max_fox_taxes(g: GameView, height: u64, target: AlkaneId, td: AnimalDetails, ids: Seq<AlkaneId>)
    ensures
        ({
            let m = g.after_initiate(height, target, td, ids).max_fox_unclaimed;
            &&& m >= g.max_fox_unclaimed
            &&& m >= td.accumulated_taxes
            &&& (m == g.max_fox_unclaimed || m == td.accumulated_taxes)
        }),
{
}

/// Every key written by the first `k` members' tax updates is one of
/// those members.
proof fn lemma_shared_taxes_keys(ids: Seq<AlkaneId>, ds: Seq<AnimalDetails>, share: u128, k: nat, x: AlkaneId)
    requires
        shared_taxes(ids, ds, share, k).contains_key(x),
    ensures
        exists|i: int| 0 <= i < k && ids[i] == x,
    decreases k,
{
    if k > 0 && k <= ids.len() {
        let k1 = (k - 1) as nat;
        if x == ids[k1 as int] {
            assert(0 <= k1 < k && ids[k1 as int] == x);
        } else {
            lemma_shared_taxes_keys(ids, ds, share, k1, x);
            let i = choose|i: int| 0 <= i < k1 && ids[i] == x;
            assert(0 <= i < k && ids[i] == x);
        }
    }
}

/// The calls of the first `n` members: for member `j`, its new taxes, then
/// its flag cleared.
proof fn lemma_success_member_calls(ids: Seq<AlkaneId>, ds: Seq<AnimalDetails>, share: u128, n: nat, j: int)
    requires
        n <= ids.len(),
        0 <= j < n,
    ensures
        success_member_calls(ids, ds, share, n).len() == 2 * n,
        success_member_calls(ids, ds, share, n)[2 * j] == set_taxes_call(ids[j], shared_taxes(ids, ds, share, (j + 1) as nat)[ids[j]]),
        success_member_calls(ids, ds, share, n)[2 * j + 1] == set_hunt_flag_call(ids[j], 0),
    decreases n,
{
    let n1 = (n - 1) as nat;
    let prev = success_member_calls(ids, ds, share, n1);
    let last = seq![
        set_taxes_call(ids[n1 as int], shared_taxes(ids, ds, share, n)[ids[n1 as int]]),
        set_hunt_flag_call(ids[n1 as int], 0),
    ];
    assert(success_member_calls(ids, ds, share, n) == prev + last);
    if n1 > 0 {
        if j < n1 {
            lemma_success_member_calls(ids, ds, share, n1, j);
        } else {
            lemma_success_member_calls(ids, ds, share, n1, 0);
        }
    }
    assert(prev.len() == 2 * n1);
    if j < n1 {
        assert((prev + last)[2 * j] == prev[2 * j]);
        assert((prev + last)[2 * j + 1] == prev[2 * j + 1]);
    } else {
        assert((prev + last)[2 * j] == last[0]);
        assert((prev + last)[2 * j + 1] == last[1]);
    }
}

/// A successful hunt splits the target's taxes evenly and never hands out
/// more than the target held: each member (listed once before its place)
/// gains `gain` with `gain * party_size <= taxes < (gain + 1) * party_size`,
/// that is the floor of the taxes over the party size.
pub proof fn law_hunt_success_split(
    g: GameView,
    hunt_id: u128,
    td: AnimalDetails,
    ds: Seq<AnimalDetails>,
    chosen: AlkaneId,
    j: int,
)
    requires
        g.wf(),
        g.resolve_error(hunt_id) is None,
        0 <= j < g.hunts[hunt_id].members.len(),
        forall|i: int| 0 <= i < j ==> g.hunts[hunt_id].members[i] != g.hunts[hunt_id].members[j],
        ds[j].accumulated_taxes + td.accumulated_taxes <= u128::MAX,
    ensures
        ({
            let h = g.hunts[hunt_id];
            let n = h.party_size as int;
            let c = g.hunt_success_calls(hunt_id, td, ds, chosen)[2 * j];
            let gain = c.1[1] - ds[j].accumulated_taxes;
            &&& c.0 == h.members[j]
            &&& c.1.len() == 2
            &&& c.1[0] == 2
            &&& gain >= 0
            &&& gain * n <= td.accumulated_taxes
            &&& td.accumulated_taxes < (gain + 1) * n
        }),
{
    let h = g.hunts[hunt_id];
    assert(g.hunts.contains_key(hunt_id));
    let ids = h.members;
    let n = h.party_size as int;
    let t = td.accumulated_taxes as int;
    let share = (t / n) as u128;
    lemma_fundamental_div_mod(t, n);
    lemma_mod_pos_bound(t, n);
    assert(0 <= t / n <= t) by {
        vstd::arithmetic::div_mod::lemma_div_pos_is_pos(t, n);
        vstd::arithmetic::div_mod::lemma_div_is_ordered_by_denominator(t, 1, n);
    }
    lemma_success_member_calls(ids, ds, share, ids.len(), j);
    let prev = shared_taxes(ids, ds, share, j as nat);
    if prev.contains_key(ids[j]) {
        lemma_shared_taxes_keys(ids, ds, share, j as nat, ids[j]);
    }
    assert(shared_taxes(ids, ds, share, (j + 1) as nat)[ids[j]] == sat_add(ds[j].accumulated_taxes, share));
    let calls = g.hunt_success_calls(hunt_id, td, ds, chosen);
    assert(calls[2 * j] == success_member_calls(ids, ds, share, ids.len())[2 * j]);
    assert((t / n) * n <= t < (t / n + 1) * n) by (nonlinear_arith)
        requires
            t == n * (t / n) + t % n,
            0 <= t % n < n,
    ;
}

/// Aging the listed animals changes an animal listed once, at `j`, by
/// `amount` once the aging has passed it.
proof fn lemma_aged_once(m: Map<AlkaneId, u128>, ids: Seq<AlkaneId>, amount: u128, n: nat, j: int)
    requires
        n <= ids.len(),
        0 <= j < ids.len(),
        forall|i: int| 0 <= i < ids.len() && i != j ==> ids[i] != ids[j],
    ensures
        get_or_zero(aged(m, ids, amount, n), ids[j])
            == if j < n { sat_add(get_or_zero(m, ids[j]), amount) } else { get_or_zero(m, ids[j]) },
    decreases n,
{
    if n > 0 {
        lemma_aged_once(m, ids, amount, (n - 1) as nat, j);
    }
}

/// Aging the listed animals, by any amount, leaves an animal not listed
/// as it was.
proof fn lemma_aged_other(m: Map<AlkaneId, u128>, ids: Seq<AlkaneId>, n: nat, x: AlkaneId)
    requires
        forall|i: int| 0 <= i < ids.len() ==> ids[i] != x,
    ensures
        forall|amount: u128| #[trigger] get_or_zero(aged(m, ids, amount, n), x) == get_or_zero(m, x),
    decreases n,
{
    if n > 0 && n <= ids.len() {
        lemma_aged_other(m, ids, (n - 1) as nat, x);
        assert forall|amount: u128| #[trigger] get_or_zero(aged(m, ids, amount, n), x) == get_or_zero(m, x) by {
            assert(get_or_zero(aged(m, ids, amount, (n - 1) as nat), x) == get_or_zero(m, x));
            assert(ids[n - 1] != x);
        }
    }
}

/// A failed hunt leaves the aging of every animal outside its party as it
/// was, and counts one more failed hunt.
#[verifier::spinoff_prover]
pub proof fn law_hunt_failure_spares_others(g: GameView, hunt_id: u128, x: AlkaneId)
    requires
        g.lifetime_failed_hunts < u128::MAX,
        forall|i: int| 0 <= i < g.hunts[hunt_id].members.len() ==> g.hunts[hunt_id].members[i] != x,
    ensures
        get_or_zero(g.after_hunt_failure(hunt_id).animal_aging, x) == get_or_zero(g.animal_aging, x),
        g.after_hunt_failure(hunt_id).lifetime_failed_hunts == g.lifetime_failed_hunts + 1,
{
    let h = g.hunts[hunt_id];
    lemma_aged_other(g.animal_aging, h.members, h.members.len(), x);
    let g2 = g.after_hunt_failure(hunt_id);
    assert(g2.lifetime_failed_hunts == (g.lifetime_failed_hunts + 1) as u128);
}

/// A failed hunt ages each of its members by the adaptive aging of the
/// failure rate so far, failed hunts over all hunts started: the base
/// aging when no hunt has failed yet, the maximum when every hunt so far
/// has failed.
#[verifier::spinoff_prover]
pub proof fn law_hunt_failure_aging(g: GameView, hunt_id: u128, j: int)
    requires
        g.wf(),
        g.resolve_error(hunt_id) is None,
        0 <= j < g.hunts[hunt_id].members.len(),
        forall|i: int| 0 <= i < g.hunts[hunt_id].members.len() && i != j
            ==> g.hunts[hunt_id].members[i] != g.hunts[hunt_id].members[j],
    ensures
        ({
            let id = g.hunts[hunt_id].members[j];
            let before = get_or_zero(g.animal_aging, id);
            let after = get_or_zero(g.after_hunt_failure(hunt_id).animal_aging, id);
            &&& after == sat_add(before, aging_blocks_spec(g.lifetime_failed_hunts, g.lifetime_total_hunts) as u128)
            &&& g.lifetime_failed_hunts == 0 ==> after == sat_add(before, HUNT_BASE_AGING_BLOCKS as u128)
            &&& (0 < g.lifetime_failed_hunts == g.lifetime_total_hunts && g.lifetime_failed_hunts * BPS <= u128::MAX)
                ==> after == sat_add(before, HUNT_MAX_AGING_BLOCKS as u128)
        }),
{
    let h = g.hunts[hunt_id];
    let amount = aging_blocks_spec(g.lifetime_failed_hunts, g.lifetime_total_hunts) as u128;
    lemma_aged_once(g.animal_aging, h.members, amount, h.members.len(), j);
    law_aging_extremes(g.lifetime_failed_hunts, g.lifetime_total_hunts);
}

} // verus!
