//! Initialization and the daily lottery: committing LP for a day's draw,
//! and revealing a commitment to mint an animal or refund the bond.

use vstd::prelude::*;
use crate::arith::sat_add;
use crate::constants::{HARDCODED_MAX_DAILY_MINTS, LOTTERY_COMMIT_WINDOW, REVEAL_DELAY};
use crate::game::{day_id_spec, seed_spec, FoxkanesGame, GameError, GameView};
use crate::store::get_or_zero;
use crate::support::{
    compute_lifespan_blocks, compute_lottery_weight, is_isqrt, lifespan_blocks_spec, lottery_check,
    lottery_check_spec, role_is_fox, role_is_fox_spec,
};
use crate::types::{AlkaneId, AlkaneTransfer, CallResponse, Cellpack, CommitmentDetails};

verus! {

/// A lottery entry planned for a commit: its day, its weight, the id the
/// commitment receipt gets, and the factory call that creates the receipt.
#[derive(Debug)]
pub struct LotteryEntry {
    pub day_id: u128,
    pub weight: u128,
    pub commitment_id: u128,
    pub create: Cellpack,
}

/// A reveal's draw: the call that consumes the commitment, whether it won,
/// and what follows: the animal to create on a win, the refund otherwise.
#[derive(Debug)]
pub struct RevealPlan {
    pub consume: Cellpack,
    pub won: bool,
    pub day_id: u128,
    pub animal_seq: u128,
    pub role: u128,
    pub create: Option<Cellpack>,
    pub refund: AlkaneTransfer,
}

/// The LP amount a commit carries: the first incoming transfer's value, or
/// one when nothing came in.
pub open spec fn lp_amount_spec(incoming: Seq<AlkaneTransfer>) -> u128 {
    if incoming.len() > 0 { incoming[0].value } else { 1 }
}

/// The block from which a commitment made at `height` may be revealed.
pub open spec fn reveal_block_spec(height: u64) -> u128 {
    (height + LOTTERY_COMMIT_WINDOW + REVEAL_DELAY) as u128
}

impl GameView {
    /// Why `Initialize` is refused.
    pub open spec fn initialize_error(self, animal_template: u128, commitment_template: u128) -> Option<GameError> {
        if self.initialized {
            Some(GameError::AlreadyInitialized)
        } else if animal_template == 0 || commitment_template == 0 {
            Some(GameError::ZeroTemplate)
        } else if animal_template == commitment_template {
            Some(GameError::SameTemplates)
        } else {
            None
        }
    }

    /// The state after `Initialize`: templates and genesis recorded, both
    /// id sequences starting at one.
    pub open spec fn after_initialize(self, animal_template: u128, commitment_template: u128, genesis_block: u128) -> GameView {
        GameView {
            initialized: true,
            animal_template,
            commitment_template,
            genesis_block,
            animal_seq: 1,
            commitment_seq: 1,
            ..self
        }
    }

    /// The factory call that creates a commitment receipt.
    pub open spec fn commitment_create_call(
        self,
        commitment_id: u128,
        bond_nft_block: u128,
        bond_nft_tx: u128,
        height: u64,
        weight: u128,
        day_id: u128,
    ) -> (AlkaneId, Seq<u128>) {
        (
            AlkaneId { block: 6, tx: self.commitment_template },
            seq![0u128, commitment_id, bond_nft_block, bond_nft_tx, height as u128, reveal_block_spec(height), weight, day_id],
        )
    }

    /// The state after a commitment receipt `nft` is created: the day's
    /// weight grows, the receipt is registered and recorded as the latest,
    /// and the commitment sequence moves past its id.
    pub open spec fn after_commit(self, day_id: u128, weight: u128, nft: AlkaneId, commitment_id: u128) -> GameView {
        GameView {
            day_weight: self.day_weight.insert(day_id, sat_add(get_or_zero(self.day_weight, day_id), weight)),
            commitment_child: self.commitment_child.insert(nft, 1),
            latest_commitment_id: nft,
            commitment_seq: (commitment_id + 1) as u128,
            ..self
        }
    }

    /// Why a reveal of a commitment with these details is refused.
    pub open spec fn reveal_error(self, height: u64, d: CommitmentDetails) -> Option<GameError> {
        if d.consumed != 0 {
            Some(GameError::CommitmentConsumed)
        } else if (height as u128) < d.reveal_block {
            Some(GameError::RevealTooEarly { height: height as u128, reveal_block: d.reveal_block })
        } else {
            None
        }
    }

    /// Whether a reveal at `height` wins the draw.
    pub open spec fn reveal_wins(self, height: u64, d: CommitmentDetails) -> bool {
        lottery_check_spec(
            d.weight,
            get_or_zero(self.day_weight, d.lottery_day_id),
            HARDCODED_MAX_DAILY_MINTS,
            seed_spec(height, d.commitment_id, d.lottery_day_id),
        )
    }

    /// Whether the reveal's lottery day still has room under the daily cap.
    pub open spec fn day_has_room(self, day_id: u128) -> bool {
        get_or_zero(self.day_mints, day_id) < HARDCODED_MAX_DAILY_MINTS
    }

    /// Whether a reveal at `height` mints an animal: it wins the draw and
    /// its day is not yet full.
    pub open spec fn reveal_mints(self, height: u64, d: CommitmentDetails) -> bool {
        self.reveal_wins(height, d) && self.day_has_room(d.lottery_day_id)
    }

    /// The role a winning reveal at `height` assigns: 1 for fox, 0 for farmer.
    pub open spec fn reveal_role(self, height: u64, d: CommitmentDetails) -> u128 {
        if role_is_fox_spec(seed_spec(height, d.commitment_id, d.lottery_day_id)) { 1 } else { 0 }
    }

    /// The factory call that creates the animal of a winning reveal.
    pub open spec fn animal_create_call(self, height: u64, role: u128) -> (AlkaneId, Seq<u128>) {
        (
            AlkaneId { block: 6, tx: self.animal_template },
            seq![0u128, self.animal_seq, role, height as u128, lifespan_blocks_spec(self.effective_last_day_mints()) as u128],
        )
    }

    /// The state after a winning reveal's animal `nft` is created: the
    /// animal is registered and recorded as the latest, the sequence moves
    /// past its id, the mint counters grow, and the role's population grows.
    pub open spec fn after_mint(self, nft: AlkaneId, animal_seq: u128, day_id: u128, role: u128) -> GameView {
        GameView {
            animal_child: self.animal_child.insert(nft, 1),
            latest_animal_id: nft,
            animal_seq: (animal_seq + 1) as u128,
            total_animals_minted: (self.total_animals_minted + 1) as u128,
            day_mints: self.day_mints.insert(day_id, (get_or_zero(self.day_mints, day_id) + 1) as u128),
            fox_count: if role == 1 { (self.fox_count + 1) as u128 } else { self.fox_count },
            farmer_count: if role == 1 { self.farmer_count } else { (self.farmer_count + 1) as u128 },
            ..self
        }
    }
}

impl FoxkanesGame {
    /// One-shot initialization: record the animal and commitment templates
    /// and the genesis block, and start both id sequences at one.
    pub fn initialize(&mut self, animal_template: u128, commitment_template: u128, genesis_block: u128) -> (r: Result<CallResponse, GameError>)
        requires
            old(self)@.wf(),
        ensures
            final(self)@.wf(),
            match r {
                Ok(resp) => {
                    &&& old(self)@.initialize_error(animal_template, commitment_template) is None
                    &&& final(self)@ == old(self)@.after_initialize(animal_template, commitment_template, genesis_block)
                    &&& resp.alkanes@.len() == 0
                    &&& resp.data@.len() == 0
                },
                Err(e) => {
                    &&& old(self)@.initialize_error(animal_template, commitment_template) == Some(e)
                    &&& final(self)@ == old(self)@
                },
            },
    {
        if self.initialized {
            return Err(GameError::AlreadyInitialized);
        }
        if animal_template == 0 || commitment_template == 0 {
            return Err(GameError::ZeroTemplate);
        }
        if animal_template == commitment_template {
            return Err(GameError::SameTemplates);
        }
        self.initialized = true;
        self.animal_template = animal_template;
        self.commitment_template = commitment_template;
        self.genesis_block = genesis_block;
        self.animal_seq = 1;
        self.commitment_seq = 1;
        assert(self@.hunts == old(self)@.hunts);
        assert(self@.day_mints == old(self)@.day_mints);
        Ok(CallResponse { alkanes: Vec::new(), data: Vec::new() })
    }

    /// Plan a commit to the day's lottery: the weight is the square root
    /// of the LP carried by the first incoming transfer, and the plan names
    /// the factory call that creates the commitment receipt.
    pub fn plan_enter_lottery(
        &self,
        height: u64,
        incoming: &Vec<AlkaneTransfer>,
        bond_nft_block: u128,
        bond_nft_tx: u128,
    ) -> (r: Result<LotteryEntry, GameError>)
        ensures
            lp_amount_spec(incoming@) == 0 ==> r == Err::<LotteryEntry, GameError>(GameError::ZeroWeight),
            lp_amount_spec(incoming@) > 0 ==> (r matches Ok(e) && {
                &&& is_isqrt(e.weight as int, lp_amount_spec(incoming@) as int)
                &&& e.weight > 0
                &&& e.day_id == day_id_spec(self@.genesis_block, height)
                &&& e.commitment_id == self@.commitment_seq
                &&& (e.create.target, e.create.inputs@) == self@.commitment_create_call(
                    self@.commitment_seq,
                    bond_nft_block,
                    bond_nft_tx,
                    height,
                    e.weight,
                    e.day_id,
                )
            }),
    {
        let lp_amount: u128 = if incoming.len() > 0 { incoming[0].value } else { 1 };
        let weight = compute_lottery_weight(lp_amount);
        if weight == 0 {
            proof {
                assert((weight + 1) * (weight + 1) == 1) by (nonlinear_arith)
                    requires
                        weight == 0,
                ;
            }
            return Err(GameError::ZeroWeight);
        }
        proof {
            if lp_amount == 0 {
                assert(weight * weight <= 0);
                assert(weight * weight > 0) by (nonlinear_arith)
                    requires
                        weight > 0,
                ;
            }
        }
        let day_id = self.current_day_id(height);
        let commitment_id = self.commitment_seq;
        let current_height = height as u128;
        let reveal_block = current_height + (LOTTERY_COMMIT_WINDOW as u128) + (REVEAL_DELAY as u128);
        let inputs = vec![
            0u128,
            commitment_id,
            bond_nft_block,
            bond_nft_tx,
            current_height,
            reveal_block,
            weight,
            day_id,
        ];
        let create = Cellpack { target: AlkaneId { block: 6, tx: self.commitment_template }, inputs };
        assert(create.inputs@ =~= seq![0u128, commitment_id, bond_nft_block, bond_nft_tx, current_height, reveal_block, weight, day_id]);
        Ok(LotteryEntry { day_id, weight, commitment_id, create })
    }

    /// Record a commit once the factory has answered: register the created
    /// receipt, add the entry's weight to its day, and hand the receipt to
    /// the caller.
    pub fn apply_enter_lottery(&mut self, entry: &LotteryEntry, created: &Vec<AlkaneTransfer>) -> (r: Result<CallResponse, GameError>)
        requires
            old(self)@.wf(),
            entry.commitment_id < u128::MAX,
        ensures
            final(self)@.wf(),
            created.len() == 0 ==> {
                &&& r == Err::<CallResponse, GameError>(GameError::NoCommitmentCreated)
                &&& final(self)@ == old(self)@
            },
            created.len() > 0 ==> (r matches Ok(resp) && {
                &&& final(self)@ == old(self)@.after_commit(entry.day_id, entry.weight, created@[0].id, entry.commitment_id)
                &&& resp.alkanes@ == seq![created@[0]]
                &&& resp.data@.len() == 0
            }),
    {
        if created.len() == 0 {
            return Err(GameError::NoCommitmentCreated);
        }
        let nft = created[0];
        let accumulated = self.day_weight.get(entry.day_id);
        self.day_weight.set(entry.day_id, accumulated.saturating_add(entry.weight));
        self.register_commitment(&nft.id);
        self.latest_commitment_id = nft.id;
        self.commitment_seq = entry.commitment_id + 1;
        assert(self@.hunts == old(self)@.hunts);
        assert(self@.day_mints == old(self)@.day_mints);
        let alkanes = vec![nft];
        assert(alkanes@ =~= seq![created@[0]]);
        Ok(CallResponse { alkanes, data: Vec::new() })
    }

    /// Draw for a presented commitment `cmt_id` with the details its
    /// receipt reports: refuse a consumed or early reveal, otherwise
    /// consume it and decide win or loss, the role and the animal to create.
    /// A winning draw on a day that already has its cap of winners counts as
    /// a loss. A loser gets its bond receipt back.
    pub fn plan_reveal(&self, height: u64, cmt_id: AlkaneId, d: &CommitmentDetails) -> (r: Result<RevealPlan, GameError>)
        ensures
            match self@.reveal_error(height, *d) {
                Some(e) => r == Err::<RevealPlan, GameError>(e),
                None => r matches Ok(p) && {
                    &&& (p.consume.target, p.consume.inputs@) == (cmt_id, seq![1u128])
                    &&& p.won == self@.reveal_mints(height, *d)
                    &&& p.day_id == d.lottery_day_id
                    &&& p.animal_seq == self@.animal_seq
                    &&& p.role == self@.reveal_role(height, *d)
                    &&& p.won ==> (p.create matches Some(c)
                        && (c.target, c.inputs@) == self@.animal_create_call(height, p.role))
                    &&& !p.won ==> p.create is None
                    &&& p.refund == (AlkaneTransfer { id: AlkaneId { block: d.bond_nft_block, tx: d.bond_nft_tx }, value: 1 })
                },
            },
    {
        let current_height = height as u128;
        if d.consumed != 0 {
            return Err(GameError::CommitmentConsumed);
        }
        if current_height < d.reveal_block {
            return Err(GameError::RevealTooEarly { height: current_height, reveal_block: d.reveal_block });
        }
        let consume = Cellpack { target: cmt_id, inputs: vec![1u128] };
        assert(consume.inputs@ =~= seq![1u128]);
        let mints_per_day = HARDCODED_MAX_DAILY_MINTS;
        let seed = self.derive_seed(height, d.commitment_id, d.lottery_day_id);
        let total_weight = self.day_weight.get(d.lottery_day_id);
        let drawn = lottery_check(d.weight, total_weight, mints_per_day, seed);
        let won = drawn && self.day_mints.get(d.lottery_day_id) < HARDCODED_MAX_DAILY_MINTS;
        let role: u128 = if role_is_fox(seed) { 1 } else { 0 };
        let refund = AlkaneTransfer { id: AlkaneId { block: d.bond_nft_block, tx: d.bond_nft_tx }, value: 1 };
        let create = if won {
            let lifespan = compute_lifespan_blocks(self.last_day_mints()) as u128;
            let inputs = vec![0u128, self.animal_seq, role, current_height, lifespan];
            assert(inputs@ =~= seq![0u128, self.animal_seq, role, current_height, lifespan]);
            Some(Cellpack { target: AlkaneId { block: 6, tx: self.animal_template }, inputs })
        } else {
            None
        };
        Ok(RevealPlan {
            consume,
            won,
            day_id: d.lottery_day_id,
            animal_seq: self.animal_seq,
            role,
            create,
            refund,
        })
    }

    /// Settle a reveal once the animal factory has answered (on a win): a
    /// winner's animal is registered and counted and handed to the caller;
    /// a loser gets its bond receipt back. A win needs room on its day:
    /// the plan was drawn against a day below the cap.
    pub fn apply_reveal(&mut self, plan: &RevealPlan, created: &Vec<AlkaneTransfer>) -> (r: Result<CallResponse, GameError>)
        requires
            old(self)@.wf(),
            plan.won ==> {
                &&& old(self)@.day_has_room(plan.day_id)
                &&& plan.animal_seq < u128::MAX
                &&& old(self)@.total_animals_minted < u128::MAX
                &&& old(self)@.fox_count < u128::MAX
                &&& old(self)@.farmer_count < u128::MAX
            },
        ensures
            final(self)@.wf(),
            !plan.won ==> (r matches Ok(resp) && {
                &&& final(self)@ == old(self)@
                &&& resp.alkanes@ == seq![plan.refund]
                &&& resp.data@.len() == 0
            }),
            plan.won && created.len() == 0 ==> {
                &&& r == Err::<CallResponse, GameError>(GameError::NoAnimalCreated)
                &&& final(self)@ == old(self)@
            },
            plan.won && created.len() > 0 ==> (r matches Ok(resp) && {
                &&& final(self)@ == old(self)@.after_mint(created@[0].id, plan.animal_seq, plan.day_id, plan.role)
                &&& resp.alkanes@ == seq![created@[0]]
                &&& resp.data@.len() == 0
            }),
    {
        if !plan.won {
            let alkanes = vec![plan.refund];
            assert(alkanes@ =~= seq![plan.refund]);
            return Ok(CallResponse { alkanes, data: Vec::new() });
        }
        if created.len() == 0 {
            return Err(GameError::NoAnimalCreated);
        }
        let nft = created[0];
        let mints_this_day = self.day_mints.get(plan.day_id) + 1;
        self.register_animal(&nft.id);
        self.latest_animal_id = nft.id;
        self.animal_seq = plan.animal_seq + 1;
        self.total_animals_minted = self.total_animals_minted + 1;
        self.day_mints.set(plan.day_id, mints_this_day);
        if plan.role == 1 {
            self.fox_count = self.fox_count + 1;
        } else {
            self.farmer_count = self.farmer_count + 1;
        }
        let alkanes = vec![nft];
        assert(alkanes@ =~= seq![created@[0]]);
        Ok(CallResponse { alkanes, data: Vec::new() })
    }
}

} // verus!
