//! Hunts and expiration: a party of staked farmers hunts a staked fox; the
//! hunt succeeds with a chance growing with the party and the fox's
//! ripeness, and aged animals can be expired by anyone.

use vstd::prelude::*;
use std::collections::HashMap;
use crate::arith::{sat_add, sat_sub};
use crate::codec::{le_bytes, u128_to_le_bytes};
use crate::constants::{BPS, EXPIRE_BOUNTY_UNITS, MAX_HUNT_PARTY, MIN_HUNT_PARTY};
use crate::game::{
    convert_to_fox_call, mark_dead_call, seed_spec, set_hunt_flag,
    set_hunt_flag_call, set_taxes_call, Effects, FoxkanesGame, GameError, GameView, Hunt, HuntView,
};
use crate::store::{get_or_zero, IdMap};
use crate::support::{
    aging_blocks_spec, compute_aging_blocks, compute_party_success_bps, compute_per_hunter_prob_bps,
    party_success_spec, per_hunter_prob_spec,
};
use crate::types::{calls_view, copy_transfers, lemma_calls_view_push, AlkaneId, AlkaneTransfer, AnimalDetails, CallResponse, Cellpack};

verus! {

broadcast use vstd::std_specs::hash::group_hash_axioms;

/// The ids of the incoming transfers of at least one unit of a registered
/// animal, in order: the hunting party.
pub open spec fn party_candidates(g: GameView, incoming: Seq<AlkaneTransfer>) -> Seq<AlkaneId>
    decreases incoming.len(),
{
    if incoming.len() == 0 {
        Seq::empty()
    } else {
        let rest = party_candidates(g, incoming.drop_last());
        let t = incoming.last();
        if t.value >= 1 && g.is_registered_animal(t.id) { rest.push(t.id) } else { rest }
    }
}

/// Why a party member is refused: not a live farmer, not staked, or busy.
pub open spec fn member_error(g: GameView, id: AlkaneId, d: AnimalDetails) -> Option<GameError> {
    if d.is_dead != 0 || d.role != 0 {
        Some(GameError::MemberNotLiveFarmer)
    } else if !g.is_staked(id) {
        Some(GameError::MemberNotStaked)
    } else if d.hunt_in_progress != 0 {
        Some(GameError::MemberInHunt)
    } else {
        None
    }
}

/// The refusal of the first refused member at or after index `i`.
pub open spec fn party_error(g: GameView, ids: Seq<AlkaneId>, ds: Seq<AnimalDetails>, i: int) -> Option<GameError>
    decreases ids.len() - i,
{
    if i < 0 || i >= ids.len() {
        None
    } else {
        match member_error(g, ids[i], ds[i]) {
            Some(e) => Some(e),
            None => party_error(g, ids, ds, i + 1),
        }
    }
}

/// Calls that set the hunt flag of every listed animal to `value`.
pub open spec fn flag_calls(ids: Seq<AlkaneId>, value: u128) -> Seq<(AlkaneId, Seq<u128>)> {
    ids.map_values(|m: AlkaneId| set_hunt_flag_call(m, value))
}

/// The taxes written to the first `n` members of a successful party, each
/// member getting `share` on top of what it held (a member listed twice
/// builds on its earlier write).
pub open spec fn shared_taxes(ids: Seq<AlkaneId>, ds: Seq<AnimalDetails>, share: u128, n: nat) -> Map<AlkaneId, u128>
    decreases n,
{
    if n == 0 || n > ids.len() {
        Map::empty()
    } else {
        let m = shared_taxes(ids, ds, share, (n - 1) as nat);
        let id = ids[n - 1];
        let cur = if m.contains_key(id) { m[id] } else { ds[n - 1].accumulated_taxes };
        m.insert(id, sat_add(cur, share))
    }
}

/// The calls made for the first `n` members of a successful party: new
/// taxes, then the hunt flag cleared.
pub open spec fn success_member_calls(ids: Seq<AlkaneId>, ds: Seq<AnimalDetails>, share: u128, n: nat) -> Seq<(AlkaneId, Seq<u128>)>
    decreases n,
{
    if n == 0 || n > ids.len() {
        Seq::empty()
    } else {
        success_member_calls(ids, ds, share, (n - 1) as nat) + seq![
            set_taxes_call(ids[n - 1], shared_taxes(ids, ds, share, n)[ids[n - 1]]),
            set_hunt_flag_call(ids[n - 1], 0),
        ]
    }
}

/// The aging map after each of the first `n` listed animals ages by `amount`.
pub open spec fn aged(m: Map<AlkaneId, u128>, ids: Seq<AlkaneId>, amount: u128, n: nat) -> Map<AlkaneId, u128>
    decreases n,
{
    if n == 0 || n > ids.len() {
        m
    } else {
        let prev = aged(m, ids, amount, (n - 1) as nat);
        prev.insert(ids[n - 1], sat_add(get_or_zero(prev, ids[n - 1]), amount))
    }
}

impl GameView {
    /// Why a hunt on `target` is refused before the party is looked at.
    pub open spec fn target_error(self, target: AlkaneId, td: AnimalDetails) -> Option<GameError> {
        if !self.is_registered_animal(target) {
            Some(GameError::TargetNotRegistered)
        } else if td.is_dead != 0 {
            Some(GameError::TargetDead)
        } else if td.role != 1 {
            Some(GameError::TargetNotFox)
        } else if !self.is_staked(target) {
            Some(GameError::TargetNotStaked)
        } else if td.hunt_in_progress != 0 {
            Some(GameError::TargetInHunt)
        } else {
            None
        }
    }

    /// Why a hunt is refused: the target, a member, or the party's size.
    pub open spec fn initiate_error(
        self,
        target: AlkaneId,
        td: AnimalDetails,
        ids: Seq<AlkaneId>,
        ds: Seq<AnimalDetails>,
    ) -> Option<GameError> {
        if self.target_error(target, td) is Some {
            self.target_error(target, td)
        } else if party_error(self, ids, ds, 0) is Some {
            party_error(self, ids, ds, 0)
        } else if ids.len() < MIN_HUNT_PARTY {
            Some(GameError::PartyTooSmall { size: ids.len() as u128 })
        } else if ids.len() > MAX_HUNT_PARTY {
            Some(GameError::PartyTooLarge { size: ids.len() as u128 })
        } else {
            None
        }
    }

    /// The id the next hunt gets.
    pub open spec fn next_hunt_id(self) -> u128 {
        if self.hunt_seq == 0 { 1 } else { self.hunt_seq }
    }

    /// The state after a hunt on `target` by `ids` starts at `height`: the
    /// hunt is recorded unresolved, the sequence and hunt count move on,
    /// and the moving maximum of fox taxes takes in the target's.
    pub open spec fn after_initiate(self, height: u64, target: AlkaneId, td: AnimalDetails, ids: Seq<AlkaneId>) -> GameView {
        GameView {
            hunts: self.hunts.insert(
                self.next_hunt_id(),
                HuntView {
                    target,
                    party_size: ids.len() as u128,
                    init_block: height as u128,
                    resolved: 0,
                    success: 0,
                    members: ids,
                },
            ),
            hunt_seq: (self.next_hunt_id() + 1) as u128,
            lifetime_total_hunts: (self.lifetime_total_hunts + 1) as u128,
            max_fox_unclaimed: if td.accumulated_taxes > self.max_fox_unclaimed {
                td.accumulated_taxes
            } else {
                self.max_fox_unclaimed
            },
            ..self
        }
    }

    /// Why resolving hunt `hunt_id` is refused: already resolved, or no such
    /// hunt (an unset hunt reads as zeros).
    pub open spec fn resolve_error(self, hunt_id: u128) -> Option<GameError> {
        if self.hunts.contains_key(hunt_id) && self.hunts[hunt_id].resolved != 0 {
            Some(GameError::HuntAlreadyResolved)
        } else if !self.hunts.contains_key(hunt_id) || self.hunts[hunt_id].party_size == 0 {
            Some(GameError::UnknownHunt)
        } else {
            None
        }
    }

    /// The seed of hunt `hunt_id` resolved at `height` against a target
    /// holding `taxes`.
    pub open spec fn hunt_seed(self, height: u64, hunt_id: u128, taxes: u128) -> u128 {
        seed_spec(height, hunt_id, taxes)
    }

    /// Whether hunt `hunt_id` succeeds: the seed's roll falls below the
    /// party's success chance.
    pub open spec fn hunt_succeeds(self, height: u64, hunt_id: u128, td: AnimalDetails) -> bool {
        let h = self.hunts[hunt_id];
        let per_hunter = per_hunter_prob_spec(td.accumulated_taxes, self.max_fox_unclaimed);
        self.hunt_seed(height, hunt_id, td.accumulated_taxes) % BPS < party_success_spec(per_hunter, h.party_size)
    }

    /// The party member converted to a fox on a success.
    pub open spec fn hunt_chosen(self, height: u64, hunt_id: u128, td: AnimalDetails) -> AlkaneId {
        let h = self.hunts[hunt_id];
        h.members[((self.hunt_seed(height, hunt_id, td.accumulated_taxes) >> 64u128) % h.party_size) as int]
    }

    /// The state after hunt `hunt_id` succeeds: the target fox dies (one fox
    /// and one staked fox fewer), the chosen farmer becomes a fox (one
    /// farmer and one staked farmer fewer, one fox and one staked fox more)
    /// earning only later taxes, and the hunt is marked resolved and won.
    pub open spec fn after_hunt_success(self, hunt_id: u128, chosen: AlkaneId) -> GameView {
        let h = self.hunts[hunt_id];
        GameView {
            fox_count: (sat_sub(self.fox_count, 1) + 1) as u128,
            staked_fox_count: (sat_sub(self.staked_fox_count, 1) + 1) as u128,
            farmer_count: sat_sub(self.farmer_count, 1),
            staked_farmer_count: sat_sub(self.staked_farmer_count, 1),
            fox_ck: self.fox_ck.insert(chosen, self.tax_per_fox_acc),
            hunts: self.hunts.insert(hunt_id, HuntView { resolved: 1, success: 1, ..h }),
            ..self
        }
    }

    /// The state after hunt `hunt_id` fails: every member ages by the
    /// adaptive aging, the failed-hunt count grows, the hunt is resolved.
    pub open spec fn after_hunt_failure(self, hunt_id: u128) -> GameView {
        let h = self.hunts[hunt_id];
        let amount = aging_blocks_spec(self.lifetime_failed_hunts, self.lifetime_total_hunts) as u128;
        GameView {
            animal_aging: aged(self.animal_aging, h.members, amount, h.members.len()),
            lifetime_failed_hunts: (self.lifetime_failed_hunts + 1) as u128,
            hunts: self.hunts.insert(hunt_id, HuntView { resolved: 1, ..h }),
            ..self
        }
    }

    /// The calls a successful hunt makes: each member's taxes grow by its
    /// share of the target's and its flag clears; the target is marked
    /// dead, emptied and unflagged; the chosen member becomes a fox.
    pub open spec fn hunt_success_calls(self, hunt_id: u128, td: AnimalDetails, ds: Seq<AnimalDetails>, chosen: AlkaneId) -> Seq<(AlkaneId, Seq<u128>)> {
        let h = self.hunts[hunt_id];
        let share = (td.accumulated_taxes / h.party_size) as u128;
        success_member_calls(h.members, ds, share, h.members.len()) + seq![
            mark_dead_call(h.target),
            set_taxes_call(h.target, 0),
            set_hunt_flag_call(h.target, 0),
            convert_to_fox_call(chosen),
        ]
    }

    /// The calls a failed hunt makes: every member's flag and the target's
    /// flag clear.
    pub open spec fn hunt_failure_calls(self, hunt_id: u128) -> Seq<(AlkaneId, Seq<u128>)> {
        let h = self.hunts[hunt_id];
        flag_calls(h.members, 0) + seq![set_hunt_flag_call(h.target, 0)]
    }

    /// The end of an animal's effective lifespan: birth plus lifespan, less
    /// the aging of its failed hunts.
    pub open spec fn effective_end(self, id: AlkaneId, d: AnimalDetails) -> u128 {
        sat_sub(sat_add(d.birth_block, d.lifespan), get_or_zero(self.animal_aging, id))
    }

    /// Why expiring animal `id` at `height` is refused.
    pub open spec fn expire_error(self, height: u64, id: AlkaneId, d: AnimalDetails) -> Option<GameError> {
        if !self.is_registered_animal(id) {
            Some(GameError::AnimalNotRegistered)
        } else if d.is_dead != 0 {
            Some(GameError::AnimalAlreadyDead)
        } else if d.hunt_in_progress != 0 {
            Some(GameError::AnimalInHunt)
        } else if (height as u128) < self.effective_end(id, d) {
            Some(GameError::ExpireTooEarly { height: height as u128, effective_end: self.effective_end(id, d) })
        } else {
            None
        }
    }

    /// The state after animal `id` expires: its role's population (and
    /// staked count, if staked) drops by one and the expiration count grows.
    pub open spec fn after_expire(self, id: AlkaneId, role: u128) -> GameView {
        GameView {
            fox_count: if role == 1 { sat_sub(self.fox_count, 1) } else { self.fox_count },
            staked_fox_count: if role == 1 && self.is_staked(id) {
                sat_sub(self.staked_fox_count, 1)
            } else {
                self.staked_fox_count
            },
            farmer_count: if role == 1 { self.farmer_count } else { sat_sub(self.farmer_count, 1) },
            staked_farmer_count: if role != 1 && self.is_staked(id) {
                sat_sub(self.staked_farmer_count, 1)
            } else {
                self.staked_farmer_count
            },
            total_expirations: (self.total_expirations + 1) as u128,
            ..self
        }
    }
}

/// A copy of a list of ids.
fn copy_ids(v: &Vec<AlkaneId>) -> (r: Vec<AlkaneId>)
    ensures
        r@ == v@,
{
    let mut r: Vec<AlkaneId> = Vec::new();
    let mut i: usize = 0;
    while i < v.len()
        invariant
            i <= v.len(),
            r@ == v@.take(i as int),
        decreases v.len() - i,
    {
        r.push(v[i]);
        i = i + 1;
        assert(r@ =~= v@.take(i as int));
    }
    assert(v@.take(v.len() as int) =~= v@);
    r
}

/// Mark hunt `hunt_id` resolved, and won when `success`.
fn mark_hunt_resolved(hunts: &mut HashMap<u128, Hunt>, hunt_id: u128, success: bool)
    requires
        old(hunts)@.contains_key(hunt_id),
    ensures
        final(hunts)@.map_values(|h: Hunt| h@) == old(hunts)@.map_values(|h: Hunt| h@).insert(
            hunt_id,
            HuntView {
                resolved: 1,
                success: if success { 1 } else { old(hunts)@[hunt_id].success },
                ..old(hunts)@[hunt_id]@
            },
        ),
{
    let ghost before = hunts@;
    match hunts.remove(&hunt_id) {
        Some(mut h) => {
            h.resolved = 1;
            if success {
                h.success = 1;
            }
            hunts.insert(hunt_id, h);
        },
        None => {},
    }
    assert(hunts@.map_values(|h: Hunt| h@) =~= before.map_values(|h: Hunt| h@).insert(
        hunt_id,
        HuntView {
            resolved: 1,
            success: if success { 1 } else { before[hunt_id].success },
            ..before[hunt_id]@
        },
    ));
}

/// The call that sets an animal's accumulated taxes.
fn set_taxes(id: AlkaneId, taxes: u128) -> (r: Cellpack)
    ensures
        (r.target, r.inputs@) == set_taxes_call(id, taxes),
{
    let r = Cellpack { target: id, inputs: vec![2u128, taxes] };
    assert(r.inputs@ =~= seq![2u128, taxes]);
    r
}

/// The call that marks an animal dead.
fn mark_dead(id: AlkaneId) -> (r: Cellpack)
    ensures
        (r.target, r.inputs@) == mark_dead_call(id),
{
    let r = Cellpack { target: id, inputs: vec![4u128] };
    assert(r.inputs@ =~= seq![4u128]);
    r
}

/// The call that converts an animal to a fox.
fn convert_to_fox(id: AlkaneId) -> (r: Cellpack)
    ensures
        (r.target, r.inputs@) == convert_to_fox_call(id),
{
    let r = Cellpack { target: id, inputs: vec![3u128] };
    assert(r.inputs@ =~= seq![3u128]);
    r
}

/// The calls that give each member its share of the target's taxes (on
/// top of what it holds, a repeated member building on its earlier write)
/// and clear its hunt flag.
fn share_target_taxes(members: &Vec<AlkaneId>, member_d: &Vec<AnimalDetails>, share: u128) -> (calls: Vec<Cellpack>)
    requires
        members.len() == member_d.len(),
    ensures
        calls_view(calls@) == success_member_calls(members@, member_d@, share, members.len() as nat),
{
    let mut calls: Vec<Cellpack> = Vec::new();
    let mut written = IdMap::new();
    let mut idx: usize = 0;
    while idx < members.len()
        invariant
            idx <= members.len(),
            members.len() == member_d.len(),
            written@ == shared_taxes(members@, member_d@, share, idx as nat),
            calls_view(calls@) == success_member_calls(members@, member_d@, share, idx as nat),
        decreases members.len() - idx,
    {
        let m = members[idx];
        let cur = match written.get_opt(&m) {
            Some(v) => v,
            None => member_d[idx].accumulated_taxes,
        };
        let new_taxes = cur.saturating_add(share);
        written.set(&m, new_taxes);
        let ghost before = calls@;
        let c1 = set_taxes(m, new_taxes);
        let c2 = set_hunt_flag(m, 0);
        calls.push(c1);
        calls.push(c2);
        proof {
            lemma_calls_view_push(before, c1);
            lemma_calls_view_push(before.push(c1), c2);
        }
        idx = idx + 1;
        assert(calls_view(calls@) =~= success_member_calls(members@, member_d@, share, idx as nat));
    }
    calls
}

/// Age every member by `amount` and return the calls that clear their
/// hunt flags.
fn age_members(aging: &mut IdMap, members: &Vec<AlkaneId>, amount: u128) -> (calls: Vec<Cellpack>)
    ensures
        final(aging)@ == aged(old(aging)@, members@, amount, members.len() as nat),
        calls_view(calls@) == flag_calls(members@, 0),
{
    let mut calls: Vec<Cellpack> = Vec::new();
    let mut idx: usize = 0;
    while idx < members.len()
        invariant
            idx <= members.len(),
            aging@ == aged(old(aging)@, members@, amount, idx as nat),
            calls_view(calls@) == flag_calls(members@.take(idx as int), 0),
        decreases members.len() - idx,
    {
        let m = members[idx];
        let cur = aging.get(&m);
        aging.set(&m, cur.saturating_add(amount));
        let ghost before = calls@;
        let c = set_hunt_flag(m, 0);
        calls.push(c);
        proof {
            lemma_calls_view_push(before, c);
            lemma_flag_calls_take(members@, 0, idx as int);
        }
        idx = idx + 1;
    }
    assert(members@.take(members.len() as int) =~= members@);
    calls
}

proof fn lemma_flag_calls_take(ids: Seq<AlkaneId>, value: u128, j: int)
    requires
        0 <= j < ids.len(),
    ensures
        flag_calls(ids.take(j + 1), value) == flag_calls(ids.take(j), value).push(set_hunt_flag_call(ids[j], value)),
{
    assert(flag_calls(ids.take(j + 1), value) =~= flag_calls(ids.take(j), value).push(set_hunt_flag_call(ids[j], value)));
}

proof fn lemma_party_error_step(g: GameView, ids: Seq<AlkaneId>, ds: Seq<AnimalDetails>, i: int)
    requires
        0 <= i < ids.len(),
        member_error(g, ids[i], ds[i]) is None,
    ensures
        party_error(g, ids, ds, i) == party_error(g, ids, ds, i + 1),
{
}

impl FoxkanesGame {
    /// The hunting party the incoming alkanes bring: every transfer of at
    /// least one unit of a registered animal, in order.
    pub fn hunt_party_candidates(&self, incoming: &Vec<AlkaneTransfer>) -> (r: Vec<AlkaneId>)
        ensures
            r@ == party_candidates(self@, incoming@),
    {
        let mut r: Vec<AlkaneId> = Vec::new();
        let mut i: usize = 0;
        while i < incoming.len()
            invariant
                i <= incoming.len(),
                r@ == party_candidates(self@, incoming@.take(i as int)),
            decreases incoming.len() - i,
        {
            let t = incoming[i];
            assert(incoming@.take(i as int + 1).drop_last() =~= incoming@.take(i as int));
            if t.value >= 1 && self.is_registered_animal(&t.id) {
                r.push(t.id);
            }
            i = i + 1;
        }
        assert(incoming@.take(incoming.len() as int) =~= incoming@);
        r
    }

    /// Start a hunt on the staked fox `target` (whose receipt reports `td`)
    /// by the party the incoming alkanes bring (whose receipts report
    /// `party_d`, in party order): every party member must be a live,
    /// staked, idle farmer, and the party between the bounds. Target and
    /// party are frozen, and the hunt id comes back as 16 bytes.
    pub fn initiate_hunt(
        &mut self,
        height: u64,
        target: AlkaneId,
        td: &AnimalDetails,
        incoming: &Vec<AlkaneTransfer>,
        party_d: &Vec<AnimalDetails>,
    ) -> (r: Result<Effects, GameError>)
        requires
            old(self)@.wf(),
            party_d.len() == party_candidates(old(self)@, incoming@).len(),
            old(self)@.initiate_error(target, *td, party_candidates(old(self)@, incoming@), party_d@) is None ==> {
                &&& old(self)@.hunt_seq < u128::MAX
                &&& old(self)@.lifetime_total_hunts < u128::MAX
            },
        ensures
            final(self)@.wf(),
            ({
                let ids = party_candidates(old(self)@, incoming@);
                match old(self)@.initiate_error(target, *td, ids, party_d@) {
                    Some(e) => r == Err::<Effects, GameError>(e) && final(self)@ == old(self)@,
                    None => r matches Ok(eff) && {
                        &&& final(self)@ == old(self)@.after_initiate(height, target, *td, ids)
                        &&& calls_view(eff.calls@) == seq![set_hunt_flag_call(target, 1)] + flag_calls(ids, 1)
                        &&& eff.response.alkanes@ == incoming@
                        &&& eff.response.data@ == le_bytes(old(self)@.next_hunt_id() as nat, 16)
                    },
                }
            }),
    {
        let ghost ids = party_candidates(self@, incoming@);
        if !self.is_registered_animal(&target) {
            return Err(GameError::TargetNotRegistered);
        }
        if td.is_dead != 0 {
            return Err(GameError::TargetDead);
        }
        if td.role != 1 {
            return Err(GameError::TargetNotFox);
        }
        if !self.is_staked(&target) {
            return Err(GameError::TargetNotStaked);
        }
        if td.hunt_in_progress != 0 {
            return Err(GameError::TargetInHunt);
        }
        let party = self.hunt_party_candidates(incoming);
        let mut i: usize = 0;
        while i < party.len()
            invariant
                i <= party.len(),
                party@ == ids,
                party_d.len() == party.len(),
                party_error(self@, ids, party_d@, 0) == party_error(self@, ids, party_d@, i as int),
                self@ == old(self)@,
                self@.wf(),
                old(self)@.target_error(target, *td) is None,
                ids == party_candidates(old(self)@, incoming@),
            decreases party.len() - i,
        {
            let m = party[i];
            let d = party_d[i];
            if d.is_dead != 0 || d.role != 0 {
                return Err(GameError::MemberNotLiveFarmer);
            }
            if !self.is_staked(&m) {
                return Err(GameError::MemberNotStaked);
            }
            if d.hunt_in_progress != 0 {
                return Err(GameError::MemberInHunt);
            }
            proof {
                lemma_party_error_step(self@, ids, party_d@, i as int);
            }
            i = i + 1;
        }
        let party_size = party.len() as u128;
        if party_size < MIN_HUNT_PARTY {
            return Err(GameError::PartyTooSmall { size: party_size });
        }
        if party_size > MAX_HUNT_PARTY {
            return Err(GameError::PartyTooLarge { size: party_size });
        }
        let hunt_id = if self.hunt_seq == 0 { 1 } else { self.hunt_seq };
        let mut calls: Vec<Cellpack> = Vec::new();
        calls.push(set_hunt_flag(target, 1));
        let mut j: usize = 0;
        while j < party.len()
            invariant
                j <= party.len(),
                party@ == ids,
                calls_view(calls@) == seq![set_hunt_flag_call(target, 1)] + flag_calls(ids.take(j as int), 1),
            decreases party.len() - j,
        {
            let ghost before = calls@;
            let c = set_hunt_flag(party[j], 1);
            calls.push(c);
            proof {
                lemma_calls_view_push(before, c);
                lemma_flag_calls_take(ids, 1, j as int);
            }
            j = j + 1;
            assert(calls_view(calls@) =~= seq![set_hunt_flag_call(target, 1)] + flag_calls(ids.take(j as int), 1));
        }
        assert(ids.take(party.len() as int) =~= ids);
        let hunt = Hunt {
            target,
            party_size,
            init_block: height as u128,
            resolved: 0,
            success: 0,
            members: party,
        };
        self.hunts.insert(hunt_id, hunt);
        self.hunt_seq = hunt_id + 1;
        self.lifetime_total_hunts = self.lifetime_total_hunts + 1;
        if td.accumulated_taxes > self.max_fox_unclaimed {
            self.max_fox_unclaimed = td.accumulated_taxes;
        }
        assert(self@.hunts =~= old(self)@.hunts.insert(
            hunt_id,
            HuntView { target, party_size, init_block: height as u128, resolved: 0, success: 0, members: ids },
        ));
        assert(self@.day_mints == old(self)@.day_mints);
        Ok(Effects {
            calls,
            response: CallResponse { alkanes: copy_transfers(incoming), data: u128_to_le_bytes(hunt_id) },
        })
    }

    /// The target and party of hunt `hunt_id`, refusing a resolved or
    /// unknown hunt.
    pub fn hunt_participants(&self, hunt_id: u128) -> (r: Result<(AlkaneId, Vec<AlkaneId>), GameError>)
        requires
            self@.wf(),
        ensures
            match self@.resolve_error(hunt_id) {
                Some(e) => r == Err::<(AlkaneId, Vec<AlkaneId>), GameError>(e),
                None => r matches Ok((t, ms)) && t == self@.hunts[hunt_id].target && ms@ == self@.hunts[hunt_id].members,
            },
    {
        match self.hunts.get(&hunt_id) {
            None => Err(GameError::UnknownHunt),
            Some(h) => {
                if h.resolved != 0 {
                    return Err(GameError::HuntAlreadyResolved);
                }
                if h.party_size == 0 {
                    return Err(GameError::UnknownHunt);
                }
                Ok((h.target, copy_ids(&h.members)))
            },
        }
    }

    /// The population and fox-pool changes of a successful hunt, and the
    /// hunt marked resolved and won.
    fn apply_hunt_success(&mut self, hunt_id: u128, chosen: &AlkaneId)
        requires
            old(self)@.hunts.contains_key(hunt_id),
        ensures
            final(self)@ == old(self)@.after_hunt_success(hunt_id, *chosen),
    {
        self.fox_count = self.fox_count.saturating_sub(1);
        self.staked_fox_count = self.staked_fox_count.saturating_sub(1);
        self.farmer_count = self.farmer_count.saturating_sub(1);
        self.fox_count = self.fox_count + 1;
        self.staked_farmer_count = self.staked_farmer_count.saturating_sub(1);
        self.staked_fox_count = self.staked_fox_count + 1;
        let acc = self.tax_per_fox_acc;
        self.fox_ck.set(chosen, acc);
        mark_hunt_resolved(&mut self.hunts, hunt_id, true);
    }

    /// Resolve hunt `hunt_id` at `height`, given what the target's receipt
    /// (`td`) and the members' receipts (`member_d`, in party order)
    /// report. The roll succeeds with the party's chance: the members share
    /// the target's taxes, the target dies, and a member drawn from the seed
    /// becomes a fox. On a failure every member ages. Everyone is unfrozen
    /// and the outcome (1 or 0) comes back as 16 bytes.
    pub fn resolve_hunt(&mut self, height: u64, hunt_id: u128, td: &AnimalDetails, member_d: &Vec<AnimalDetails>) -> (r: Result<Effects, GameError>)
        requires
            old(self)@.wf(),
            old(self)@.resolve_error(hunt_id) is None ==> member_d.len() == old(self)@.hunts[hunt_id].party_size,
            old(self)@.resolve_error(hunt_id) is None && !old(self)@.hunt_succeeds(height, hunt_id, *td)
                ==> old(self)@.lifetime_failed_hunts < u128::MAX,
        ensures
            final(self)@.wf(),
            match old(self)@.resolve_error(hunt_id) {
                Some(e) => r == Err::<Effects, GameError>(e) && final(self)@ == old(self)@,
                None => r matches Ok(eff) && {
                    let g = old(self)@;
                    let succeeded = g.hunt_succeeds(height, hunt_id, *td);
                    let chosen = g.hunt_chosen(height, hunt_id, *td);
                    &&& succeeded ==> final(self)@ == g.after_hunt_success(hunt_id, chosen)
                    &&& succeeded ==> calls_view(eff.calls@) == g.hunt_success_calls(hunt_id, *td, member_d@, chosen)
                    &&& !succeeded ==> final(self)@ == g.after_hunt_failure(hunt_id)
                    &&& !succeeded ==> calls_view(eff.calls@) == g.hunt_failure_calls(hunt_id)
                    &&& eff.response.alkanes@.len() == 0
                    &&& eff.response.data@ == le_bytes((if succeeded { 1nat } else { 0nat }), 16)
                },
            },
    {
        let ghost g = self@;
        let (target, members, party_size) = match self.hunts.get(&hunt_id) {
            None => return Err(GameError::UnknownHunt),
            Some(h) => {
                if h.resolved != 0 {
                    return Err(GameError::HuntAlreadyResolved);
                }
                if h.party_size == 0 {
                    return Err(GameError::UnknownHunt);
                }
                (h.target, copy_ids(&h.members), h.party_size)
            },
        };
        assert(members@ == g.hunts[hunt_id].members);
        let target_taxes = td.accumulated_taxes;
        let moving_max = self.max_fox_unclaimed;
        let per_hunter = compute_per_hunter_prob_bps(target_taxes, moving_max);
        let party_bps = compute_party_success_bps(per_hunter, party_size);
        let seed = self.derive_seed(height, hunt_id, target_taxes);
        let roll = seed % BPS;
        let success = roll < party_bps;
        let mut calls: Vec<Cellpack>;
        if success {
            let share = target_taxes / party_size;
            calls = share_target_taxes(&members, member_d, share);
            let ghost before_target = calls@;
            let c3 = mark_dead(target);
            let c4 = set_taxes(target, 0);
            let c5 = set_hunt_flag(target, 0);
            let pick = (seed >> 64u32) % party_size;
            let chosen = members[pick as usize];
            let c6 = convert_to_fox(chosen);
            calls.push(c3);
            calls.push(c4);
            calls.push(c5);
            calls.push(c6);
            proof {
                lemma_calls_view_push(before_target, c3);
                lemma_calls_view_push(before_target.push(c3), c4);
                lemma_calls_view_push(before_target.push(c3).push(c4), c5);
                lemma_calls_view_push(before_target.push(c3).push(c4).push(c5), c6);
            }
            assert(calls_view(calls@) =~= g.hunt_success_calls(hunt_id, *td, member_d@, chosen));
            self.apply_hunt_success(hunt_id, &chosen);
        } else {
            let aging = compute_aging_blocks(self.lifetime_failed_hunts, self.lifetime_total_hunts) as u128;
            calls = age_members(&mut self.animal_aging, &members, aging);
            let ghost before_target = calls@;
            let c = set_hunt_flag(target, 0);
            calls.push(c);
            proof {
                lemma_calls_view_push(before_target, c);
            }
            assert(calls_view(calls@) =~= g.hunt_failure_calls(hunt_id));
            self.lifetime_failed_hunts = self.lifetime_failed_hunts + 1;
            mark_hunt_resolved(&mut self.hunts, hunt_id, false);
            assert(self@ == g.after_hunt_failure(hunt_id));
        }
        let success_flag: u128 = if success { 1 } else { 0 };
        Ok(Effects { calls, response: CallResponse { alkanes: Vec::new(), data: u128_to_le_bytes(success_flag) } })
    }

    /// Expire animal `id` (whose receipt reports `d`) at `height` once its
    /// effective lifespan has elapsed: it is marked dead, its role's
    /// population drops, and the expiry bounty comes back as 16 bytes.
    pub fn expire(&mut self, height: u64, id: AlkaneId, d: &AnimalDetails) -> (r: Result<Effects, GameError>)
        requires
            old(self)@.wf(),
            old(self)@.expire_error(height, id, *d) is None ==> old(self)@.total_expirations < u128::MAX,
        ensures
            final(self)@.wf(),
            match old(self)@.expire_error(height, id, *d) {
                Some(e) => r == Err::<Effects, GameError>(e) && final(self)@ == old(self)@,
                None => r matches Ok(eff) && {
                    &&& final(self)@ == old(self)@.after_expire(id, d.role)
                    &&& calls_view(eff.calls@) == seq![mark_dead_call(id)]
                    &&& eff.response.alkanes@.len() == 0
                    &&& eff.response.data@ == le_bytes(EXPIRE_BOUNTY_UNITS as nat, 16)
                },
            },
    {
        if !self.is_registered_animal(&id) {
            return Err(GameError::AnimalNotRegistered);
        }
        if d.is_dead != 0 {
            return Err(GameError::AnimalAlreadyDead);
        }
        if d.hunt_in_progress != 0 {
            return Err(GameError::AnimalInHunt);
        }
        let current_height = height as u128;
        let aging = self.animal_aging.get(&id);
        let nominal_end = d.birth_block.saturating_add(d.lifespan);
        let effective_end = nominal_end.saturating_sub(aging);
        if current_height < effective_end {
            return Err(GameError::ExpireTooEarly { height: current_height, effective_end });
        }
        let call = mark_dead(id);
        let staked = self.is_staked(&id);
        if d.role == 1 {
            self.fox_count = self.fox_count.saturating_sub(1);
            if staked {
                self.staked_fox_count = self.staked_fox_count.saturating_sub(1);
            }
        } else {
            self.farmer_count = self.farmer_count.saturating_sub(1);
            if staked {
                self.staked_farmer_count = self.staked_farmer_count.saturating_sub(1);
            }
        }
        self.total_expirations = self.total_expirations + 1;
        assert(self@.hunts == old(self)@.hunts);
        assert(self@.day_mints == old(self)@.day_mints);
        let calls = vec![call];
        assert(calls_view(calls@) =~= seq![mark_dead_call(id)]);
        Ok(Effects {
            calls,
            response: CallResponse { alkanes: Vec::new(), data: u128_to_le_bytes(EXPIRE_BOUNTY_UNITS) },
        })
    }


}

} // verus!
