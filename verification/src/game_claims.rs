//! Staking an animal and claiming its yield, safely (homeostatic tax to
//! the fox pool) or riskily (a coin flip between all and nothing).

use vstd::prelude::*;
use crate::arith::{sat_add, sat_sub};
use crate::codec::{le_bytes, u128_to_le_bytes};
use crate::constants::{BPS, RISKY_CLAIM_SALT, RISKY_KEEP_PROBABILITY_BPS};
use crate::game::{
    pool_ok, seed_spec, set_last_claim, set_last_claim_call, yield_spec, Effects, FoxkanesGame,
    GameError, GameView,
};
use crate::types::{calls_view, copy_transfers, AlkaneId, AlkaneTransfer, AnimalDetails, CallResponse};

verus! {

impl GameView {
    /// Why a presented animal is refused for an operation wanting it staked
    /// (`want_staked`) or not.
    pub open spec fn presented_animal_error(
        self,
        incoming: Seq<AlkaneTransfer>,
        d: AnimalDetails,
        want_staked: bool,
    ) -> Option<GameError> {
        match self.first_registered_animal(incoming) {
            None => Some(GameError::NoAnimalPresented),
            Some(i) => self.animal_auth_error(incoming[i].id, d.is_dead, want_staked),
        }
    }

    /// The presented animal's id (meaningful when one is presented).
    pub open spec fn presented_animal(self, incoming: Seq<AlkaneTransfer>) -> AlkaneId {
        incoming[self.first_registered_animal(incoming).unwrap()].id
    }

    /// The state after an animal of `role` is staked: it is marked staked,
    /// a fox's checkpoint is set to the accumulator, and the role's staked
    /// count grows.
    pub open spec fn after_stake(self, id: AlkaneId, role: u128) -> GameView {
        GameView {
            animal_staked: self.animal_staked.insert(id, 1),
            fox_ck: if role == 1 { self.fox_ck.insert(id, self.tax_per_fox_acc) } else { self.fox_ck },
            staked_fox_count: if role == 1 { (self.staked_fox_count + 1) as u128 } else { self.staked_fox_count },
            staked_farmer_count: if role == 1 { self.staked_farmer_count } else { (self.staked_farmer_count + 1) as u128 },
            ..self
        }
    }

    /// A safe claim: a farmer pays the homeostatic tax on its yield into
    /// the fox pool and keeps the rest; a fox takes its yield plus its pool
    /// share. The state after, and the payout.
    pub open spec fn safe_claim(self, height: u64, id: AlkaneId, d: AnimalDetails) -> (GameView, u128) {
        let y = yield_spec(height, d.last_claim_block);
        if d.role == 0 {
            let tax = self.farmer_tax(y);
            (self.after_distribute(tax), sat_sub(y, tax))
        } else {
            (self.after_fox_claim(id), sat_add(y, self.fox_share(id)))
        }
    }

    /// Whether a risky claim at `height` keeps its yield.
    pub open spec fn risky_keeps(self, height: u64, d: AnimalDetails) -> bool {
        seed_spec(height, d.animal_id.wrapping_add(RISKY_CLAIM_SALT), height as u128) % BPS
            < RISKY_KEEP_PROBABILITY_BPS
    }

    /// A risky claim: on a keep the animal takes its whole yield untaxed; on
    /// a loss the yield goes to the fox pool. A fox's pool share is paid
    /// either way. The state after, and the payout.
    pub open spec fn risky_claim(self, height: u64, id: AlkaneId, d: AnimalDetails) -> (GameView, u128) {
        let y = yield_spec(height, d.last_claim_block);
        let keep = self.risky_keeps(height, d);
        if d.role == 0 {
            if keep { (self, y) } else { (self.after_distribute(y), 0) }
        } else {
            let share = self.fox_share(id);
            let g = self.after_fox_claim(id);
            if keep { (g, sat_add(y, share)) } else { (g.after_distribute(y), share) }
        }
    }
}

/// Paying into the pool or taking a share out keeps the pool invariant.
proof fn lemma_pool_moves_keep_invariant(g: GameView, tax: u128, id: AlkaneId)
    requires
        pool_ok(g),
    ensures
        pool_ok(g.after_distribute(tax)),
        pool_ok(g.after_fox_claim(id)),
        pool_ok(g.after_fox_claim(id).after_distribute(tax)),
        g.after_distribute(tax).hunts == g.hunts,
        g.after_fox_claim(id).hunts == g.hunts,
{
}

impl FoxkanesGame {
    /// Stake the presented animal (whose receipt reports `d`) at `height`:
    /// reset its yield checkpoint to now, mark it staked, and for a fox
    /// snapshot the accumulator so it earns only later taxes. The animal
    /// goes back to the caller.
    pub fn stake(&mut self, height: u64, incoming: &Vec<AlkaneTransfer>, d: &AnimalDetails) -> (r: Result<Effects, GameError>)
        requires
            old(self)@.wf(),
            old(self)@.presented_animal_error(incoming@, *d, false) is None ==> {
                &&& d.role == 1 ==> old(self)@.staked_fox_count < u128::MAX
                &&& d.role != 1 ==> old(self)@.staked_farmer_count < u128::MAX
            },
        ensures
            final(self)@.wf(),
            match old(self)@.presented_animal_error(incoming@, *d, false) {
                Some(e) => r == Err::<Effects, GameError>(e) && final(self)@ == old(self)@,
                None => r matches Ok(eff) && {
                    let id = old(self)@.presented_animal(incoming@);
                    &&& final(self)@ == old(self)@.after_stake(id, d.role)
                    &&& calls_view(eff.calls@) == seq![set_last_claim_call(id, height as u128)]
                    &&& eff.response.alkanes@ == incoming@
                    &&& eff.response.data@.len() == 0
                },
            },
    {
        let id = match self.find_registered_animal(incoming) {
            Ok(id) => id,
            Err(e) => return Err(e),
        };
        match self.authenticate_animal(&id, d.is_dead, false) {
            Ok(()) => {},
            Err(e) => return Err(e),
        }
        let current_height = height as u128;
        let call = set_last_claim(id, current_height);
        self.animal_staked.set(&id, 1);
        if d.role == 1 {
            let acc = self.tax_per_fox_acc;
            self.fox_ck.set(&id, acc);
            self.staked_fox_count = self.staked_fox_count + 1;
        } else {
            self.staked_farmer_count = self.staked_farmer_count + 1;
        }
        assert(self@.hunts == old(self)@.hunts);
        assert(self@.day_mints == old(self)@.day_mints);
        let calls = vec![call];
        assert(calls_view(calls@) =~= seq![set_last_claim_call(id, current_height)]);
        Ok(Effects { calls, response: CallResponse { alkanes: copy_transfers(incoming), data: Vec::new() } })
    }

    /// Safe claim by the presented staked animal (whose receipt reports
    /// `d`): a farmer pays the homeostatic tax into the fox pool and keeps
    /// the rest; a fox takes its direct yield plus its pool share. The
    /// payout comes back as 16 little-endian bytes.
    pub fn claim_safe(&mut self, height: u64, incoming: &Vec<AlkaneTransfer>, d: &AnimalDetails) -> (r: Result<Effects, GameError>)
        requires
            old(self)@.wf(),
        ensures
            final(self)@.wf(),
            match old(self)@.presented_animal_error(incoming@, *d, true) {
                Some(e) => r == Err::<Effects, GameError>(e) && final(self)@ == old(self)@,
                None => r matches Ok(eff) && {
                    let id = old(self)@.presented_animal(incoming@);
                    let (g, payout) = old(self)@.safe_claim(height, id, *d);
                    &&& final(self)@ == g
                    &&& calls_view(eff.calls@) == seq![set_last_claim_call(id, height as u128)]
                    &&& eff.response.alkanes@ == incoming@
                    &&& eff.response.data@ == le_bytes(payout as nat, 16)
                },
            },
    {
        let id = match self.find_registered_animal(incoming) {
            Ok(id) => id,
            Err(e) => return Err(e),
        };
        match self.authenticate_animal(&id, d.is_dead, true) {
            Ok(()) => {},
            Err(e) => return Err(e),
        }
        proof {
            lemma_pool_moves_keep_invariant(self@, 0, id);
        }
        let current_height = height as u128;
        let payout: u128;
        if d.role == 0 {
            let yield_units = self.compute_yield_units(height, d.last_claim_block);
            let tax = self.farmer_tax_owed(yield_units);
            proof {
                lemma_pool_moves_keep_invariant(self@, tax, id);
            }
            self.distribute_tax_to_foxes(tax);
            payout = yield_units.saturating_sub(tax);
        } else {
            let direct = self.compute_yield_units(height, d.last_claim_block);
            let pool_share = self.fox_claim_share(&id);
            payout = direct.saturating_add(pool_share);
        }
        let calls = vec![set_last_claim(id, current_height)];
        assert(calls_view(calls@) =~= seq![set_last_claim_call(id, current_height)]);
        Ok(Effects {
            calls,
            response: CallResponse { alkanes: copy_transfers(incoming), data: u128_to_le_bytes(payout) },
        })
    }

    /// Risky claim by the presented staked animal (whose receipt reports
    /// `d`): a coin flip keeps the whole yield untaxed or sends it all to
    /// the fox pool; a fox's pool share is paid either way.
    pub fn claim_risky(&mut self, height: u64, incoming: &Vec<AlkaneTransfer>, d: &AnimalDetails) -> (r: Result<Effects, GameError>)
        requires
            old(self)@.wf(),
        ensures
            final(self)@.wf(),
            match old(self)@.presented_animal_error(incoming@, *d, true) {
                Some(e) => r == Err::<Effects, GameError>(e) && final(self)@ == old(self)@,
                None => r matches Ok(eff) && {
                    let id = old(self)@.presented_animal(incoming@);
                    let (g, payout) = old(self)@.risky_claim(height, id, *d);
                    &&& final(self)@ == g
                    &&& calls_view(eff.calls@) == seq![set_last_claim_call(id, height as u128)]
                    &&& eff.response.alkanes@ == incoming@
                    &&& eff.response.data@ == le_bytes(payout as nat, 16)
                },
            },
    {
        let id = match self.find_registered_animal(incoming) {
            Ok(id) => id,
            Err(e) => return Err(e),
        };
        match self.authenticate_animal(&id, d.is_dead, true) {
            Ok(()) => {},
            Err(e) => return Err(e),
        }
        let current_height = height as u128;
        let seed_input = d.animal_id.wrapping_add(RISKY_CLAIM_SALT);
        let seed = self.derive_seed(height, seed_input, current_height);
        let roll = seed % BPS;
        let keep = roll < RISKY_KEEP_PROBABILITY_BPS;
        let payout: u128;
        if d.role == 0 {
            let yield_units = self.compute_yield_units(height, d.last_claim_block);
            if keep {
                payout = yield_units;
            } else {
                proof {
                    lemma_pool_moves_keep_invariant(self@, yield_units, id);
                }
                self.distribute_tax_to_foxes(yield_units);
                payout = 0;
            }
        } else {
            let direct = self.compute_yield_units(height, d.last_claim_block);
            proof {
                lemma_pool_moves_keep_invariant(self@, direct, id);
            }
            let pool_share = self.fox_claim_share(&id);
            if keep {
                payout = direct.saturating_add(pool_share);
            } else {
                self.distribute_tax_to_foxes(direct);
                payout = pool_share;
            }
        }
        let calls = vec![set_last_claim(id, current_height)];
        assert(calls_view(calls@) =~= seq![set_last_claim_call(id, current_height)]);
        Ok(Effects {
            calls,
            response: CallResponse { alkanes: copy_transfers(incoming), data: u128_to_le_bytes(payout) },
        })
    }
}

} // verus!
