//! The game contract's state and the helpers its handlers share: the
//! lottery day clock, the seed mixer, yield accrual and the fox-pool
//! accumulator.
//!
//! The state is the game's storage: every cell the contract keeps, with
//! unset cells reading as zero. Handlers are split where the contract waits
//! on another contract: a planning step says which call to make, and an
//! applying step takes what that call returned.

use vstd::prelude::*;
use std::collections::HashMap;
use crate::arith::{sat_add, sat_mul, sat_sub, saturating_mul};
use crate::constants::{
    BPS, HARDCODED_MAX_DAILY_MINTS, LOTTERY_COMMIT_WINDOW, MAX_HUNT_PARTY, PRECISION,
    TEST_YIELD_PER_BLOCK_PER_STAKE,
};
use crate::store::{get_or_zero, IdMap, WordMap};
use crate::support::{compute_tax_bps, tax_bps_spec};
use crate::types::{AlkaneId, AlkaneTransfer, CallResponse, Cellpack, DetailsError};

verus! {

broadcast use vstd::std_specs::hash::group_hash_axioms;

/// Why the game refused a request.
#[derive(Clone, Copy, Debug, PartialEq, Eq, Structural)]
pub enum GameError {
    /// Initialize was already called.
    AlreadyInitialized,
    /// A template id is zero.
    ZeroTemplate,
    /// The animal and commitment templates are the same.
    SameTemplates,
    /// The commitment's weight (square root of the LP committed) is zero.
    ZeroWeight,
    /// The commitment factory returned no receipt.
    NoCommitmentCreated,
    /// No registered commitment came with the call.
    NoCommitmentPresented,
    /// A child's details could not be read.
    Details(DetailsError),
    /// The commitment was already revealed.
    CommitmentConsumed,
    /// The reveal block is not reached yet.
    RevealTooEarly { height: u128, reveal_block: u128 },
    /// The animal factory returned no receipt.
    NoAnimalCreated,
    /// No registered animal came with the call.
    NoAnimalPresented,
    /// The animal is dead.
    AnimalDead,
    /// The operation needs a staked animal.
    AnimalNotStaked,
    /// The animal is already staked.
    AnimalAlreadyStaked,
    /// The hunt target is not a registered animal.
    TargetNotRegistered,
    /// The hunt target is dead.
    TargetDead,
    /// The hunt target is not a fox.
    TargetNotFox,
    /// The hunt target is not staked.
    TargetNotStaked,
    /// The hunt target is in another hunt.
    TargetInHunt,
    /// A party member is dead or not a farmer.
    MemberNotLiveFarmer,
    /// A party member is not staked.
    MemberNotStaked,
    /// A party member is in another hunt.
    MemberInHunt,
    /// Fewer hunters than `MIN_HUNT_PARTY`.
    PartyTooSmall { size: u128 },
    /// More hunters than `MAX_HUNT_PARTY`.
    PartyTooLarge { size: u128 },
    /// The hunt was already resolved.
    HuntAlreadyResolved,
    /// No hunt has this id.
    UnknownHunt,
    /// The animal to expire is not registered.
    AnimalNotRegistered,
    /// The animal to expire is already dead.
    AnimalAlreadyDead,
    /// The animal to expire is in a pending hunt.
    AnimalInHunt,
    /// The animal's effective lifespan has not elapsed.
    ExpireTooEarly { height: u128, effective_end: u128 },
}

/// What a handler asks of the runtime: calls into child contracts, in
/// order, and the response to hand back.
#[derive(Debug)]
pub struct Effects {
    pub calls: Vec<Cellpack>,
    pub response: CallResponse,
}

/// A hunt's record: its target, party, start block and outcome flags.
#[derive(Debug)]
pub struct Hunt {
    pub target: AlkaneId,
    pub party_size: u128,
    pub init_block: u128,
    pub resolved: u128,
    pub success: u128,
    pub members: Vec<AlkaneId>,
}

/// A hunt's record with its party as a sequence.
pub struct HuntView {
    pub target: AlkaneId,
    pub party_size: u128,
    pub init_block: u128,
    pub resolved: u128,
    pub success: u128,
    pub members: Seq<AlkaneId>,
}

impl View for Hunt {
    type V = HuntView;

    open spec fn view(&self) -> HuntView {
        HuntView {
            target: self.target,
            party_size: self.party_size,
            init_block: self.init_block,
            resolved: self.resolved,
            success: self.success,
            members: self.members@,
        }
    }
}

/// The game contract's storage.
pub struct FoxkanesGame {
    pub initialized: bool,
    pub animal_template: u128,
    pub commitment_template: u128,
    pub genesis_block: u128,
    pub fox_count: u128,
    pub farmer_count: u128,
    pub total_animals_minted: u128,
    pub animal_seq: u128,
    pub commitment_seq: u128,
    pub day_weight: WordMap,
    pub day_mints: WordMap,
    pub last_day_mints: u128,
    pub animal_child: IdMap,
    pub commitment_child: IdMap,
    pub animal_staked: IdMap,
    pub staked_fox_count: u128,
    pub staked_farmer_count: u128,
    pub tax_per_fox_acc: u128,
    pub fox_ck: IdMap,
    pub fox_pool_lifetime: u128,
    pub fox_pool_balance: u128,
    pub hunt_seq: u128,
    pub hunts: HashMap<u128, Hunt>,
    pub animal_aging: IdMap,
    pub max_fox_unclaimed: u128,
    pub lifetime_failed_hunts: u128,
    pub lifetime_total_hunts: u128,
    pub total_expirations: u128,
    pub latest_animal_id: AlkaneId,
    pub latest_commitment_id: AlkaneId,
}

/// The game's storage as mathematical values.
pub struct GameView {
    pub initialized: bool,
    pub animal_template: u128,
    pub commitment_template: u128,
    pub genesis_block: u128,
    pub fox_count: u128,
    pub farmer_count: u128,
    pub total_animals_minted: u128,
    pub animal_seq: u128,
    pub commitment_seq: u128,
    pub day_weight: Map<u128, u128>,
    pub day_mints: Map<u128, u128>,
    pub last_day_mints: u128,
    pub animal_child: Map<AlkaneId, u128>,
    pub commitment_child: Map<AlkaneId, u128>,
    pub animal_staked: Map<AlkaneId, u128>,
    pub staked_fox_count: u128,
    pub staked_farmer_count: u128,
    pub tax_per_fox_acc: u128,
    pub fox_ck: Map<AlkaneId, u128>,
    pub fox_pool_lifetime: u128,
    pub fox_pool_balance: u128,
    pub hunt_seq: u128,
    pub hunts: Map<u128, HuntView>,
    pub animal_aging: Map<AlkaneId, u128>,
    pub max_fox_unclaimed: u128,
    pub lifetime_failed_hunts: u128,
    pub lifetime_total_hunts: u128,
    pub total_expirations: u128,
    pub latest_animal_id: AlkaneId,
    pub latest_commitment_id: AlkaneId,
}

impl View for FoxkanesGame {
    type V = GameView;

    open spec fn view(&self) -> GameView {
        GameView {
            initialized: self.initialized,
            animal_template: self.animal_template,
            commitment_template: self.commitment_template,
            genesis_block: self.genesis_block,
            fox_count: self.fox_count,
            farmer_count: self.farmer_count,
            total_animals_minted: self.total_animals_minted,
            animal_seq: self.animal_seq,
            commitment_seq: self.commitment_seq,
            day_weight: self.day_weight@,
            day_mints: self.day_mints@,
            last_day_mints: self.last_day_mints,
            animal_child: self.animal_child@,
            commitment_child: self.commitment_child@,
            animal_staked: self.animal_staked@,
            staked_fox_count: self.staked_fox_count,
            staked_farmer_count: self.staked_farmer_count,
            tax_per_fox_acc: self.tax_per_fox_acc,
            fox_ck: self.fox_ck@,
            fox_pool_lifetime: self.fox_pool_lifetime,
            fox_pool_balance: self.fox_pool_balance,
            hunt_seq: self.hunt_seq,
            hunts: self.hunts@.map_values(|h: Hunt| h@),
            animal_aging: self.animal_aging@,
            max_fox_unclaimed: self.max_fox_unclaimed,
            lifetime_failed_hunts: self.lifetime_failed_hunts,
            lifetime_total_hunts: self.lifetime_total_hunts,
            total_expirations: self.total_expirations,
            latest_animal_id: self.latest_animal_id,
            latest_commitment_id: self.latest_commitment_id,
        }
    }
}

// =====================================================================
// Specification of the shared rules
// =====================================================================

/// The storage of a game never initialized: every cell unset.
pub open spec fn empty_game_view() -> GameView {
    GameView {
        initialized: false,
        animal_template: 0,
        commitment_template: 0,
        genesis_block: 0,
        fox_count: 0,
        farmer_count: 0,
        total_animals_minted: 0,
        animal_seq: 0,
        commitment_seq: 0,
        day_weight: Map::empty(),
        day_mints: Map::empty(),
        last_day_mints: 0,
        animal_child: Map::empty(),
        commitment_child: Map::empty(),
        animal_staked: Map::empty(),
        staked_fox_count: 0,
        staked_farmer_count: 0,
        tax_per_fox_acc: 0,
        fox_ck: Map::empty(),
        fox_pool_lifetime: 0,
        fox_pool_balance: 0,
        hunt_seq: 0,
        hunts: Map::empty(),
        animal_aging: Map::empty(),
        max_fox_unclaimed: 0,
        lifetime_failed_hunts: 0,
        lifetime_total_hunts: 0,
        total_expirations: 0,
        latest_animal_id: zero_id(),
        latest_commitment_id: zero_id(),
    }
}

/// The all-zero alkane id, which an unset id cell reads as.
pub open spec fn zero_id() -> AlkaneId {
    AlkaneId { block: 0, tx: 0 }
}

/// The lottery day that `height` falls in: day 0 starts at the genesis
/// block and each commit window advances the day by one.
pub open spec fn day_id_spec(genesis_block: u128, height: u64) -> u128 {
    if (height as u128) < genesis_block {
        0
    } else {
        ((height - genesis_block) / (LOTTERY_COMMIT_WINDOW as int)) as u128
    }
}

/// `x` rotated left by 31 bits.
pub open spec fn rotl31(x: u128) -> u128 {
    (x << 31u128) | (x >> 97u128)
}

/// The seed mixer: height, id and day are spread by odd multipliers,
/// combined by xor, then rotated and multiplied once more.
pub open spec fn seed_spec(height: u64, id: u128, day: u128) -> u128 {
    let a = (height as u128).wrapping_mul(0x9E3779B97F4A7C15_9E3779B97F4A7C15u128);
    let b = id.wrapping_mul(0xBF58476D1CE4E5B9_BF58476D1CE4E5B9u128);
    let c = day.wrapping_mul(0x94D049BB133111EB_94D049BB133111EBu128);
    rotl31(a ^ b ^ c).wrapping_mul(0x2545F4914F6CDD1D_2545F4914F6CDD1Du128)
}

/// Pre-tax yield of one staked animal since `last_claim`.
pub open spec fn yield_spec(height: u64, last_claim: u128) -> u128 {
    if height <= last_claim {
        0
    } else {
        sat_mul((height - last_claim) as u128, TEST_YIELD_PER_BLOCK_PER_STAKE)
    }
}

/// Total pool distributions can never exceed what was paid in.
pub open spec fn pool_ok(g: GameView) -> bool {
    g.fox_pool_balance <= g.fox_pool_lifetime
}

/// Every hunt record lists exactly its party, of at most `MAX_HUNT_PARTY`.
pub open spec fn hunts_ok(g: GameView) -> bool {
    forall|id: u128| #[trigger] g.hunts.contains_key(id) ==> {
        &&& g.hunts[id].members.len() == g.hunts[id].party_size
        &&& g.hunts[id].party_size <= MAX_HUNT_PARTY
    }
}

/// No lottery day has more winners than the daily cap.
pub open spec fn days_ok(g: GameView) -> bool {
    forall|day: u128| #[trigger] g.day_mints.contains_key(day) ==> g.day_mints[day] <= HARDCODED_MAX_DAILY_MINTS
}

impl GameView {
    /// The storage invariant every operation keeps.
    pub open spec fn wf(self) -> bool {
        pool_ok(self) && hunts_ok(self) && days_ok(self)
    }

    pub open spec fn is_registered_animal(self, id: AlkaneId) -> bool {
        get_or_zero(self.animal_child, id) == 1
    }

    pub open spec fn is_registered_commitment(self, id: AlkaneId) -> bool {
        get_or_zero(self.commitment_child, id) == 1
    }

    pub open spec fn is_staked(self, id: AlkaneId) -> bool {
        get_or_zero(self.animal_staked, id) == 1
    }

    /// The last closed day's mint count, or the hard cap before any day closed.
    pub open spec fn effective_last_day_mints(self) -> u128 {
        if self.last_day_mints == 0 { HARDCODED_MAX_DAILY_MINTS } else { self.last_day_mints }
    }

    /// The homeostatic tax a farmer owes on `yield_units`.
    pub open spec fn farmer_tax(self, yield_units: u128) -> u128 {
        (sat_mul(yield_units, tax_bps_spec(self.fox_count, self.farmer_count)) / BPS) as u128
    }

    /// The state after `tax` is paid into the fox pool: the per-fox
    /// accumulator grows by `tax × PRECISION / staked foxes` (when a fox
    /// is staked), and the pool balance and lifetime total grow by `tax`.
    pub open spec fn after_distribute(self, tax: u128) -> GameView {
        if tax == 0 {
            self
        } else {
            GameView {
                tax_per_fox_acc: if self.staked_fox_count > 0 {
                    sat_add(self.tax_per_fox_acc, (sat_mul(tax, PRECISION) / self.staked_fox_count) as u128)
                } else {
                    self.tax_per_fox_acc
                },
                fox_pool_balance: sat_add(self.fox_pool_balance, tax),
                fox_pool_lifetime: sat_add(self.fox_pool_lifetime, tax),
                ..self
            }
        }
    }

    /// A fox's unclaimed share of the pool.
    pub open spec fn fox_share(self, id: AlkaneId) -> u128 {
        let ck = get_or_zero(self.fox_ck, id);
        if self.tax_per_fox_acc <= ck {
            0
        } else {
            ((self.tax_per_fox_acc - ck) / (PRECISION as int)) as u128
        }
    }

    /// The state after a fox withdraws its share: its checkpoint moves to
    /// the accumulator and the pool balance drops by the share.
    pub open spec fn after_fox_claim(self, id: AlkaneId) -> GameView {
        if self.tax_per_fox_acc <= get_or_zero(self.fox_ck, id) {
            self
        } else {
            GameView {
                fox_ck: self.fox_ck.insert(id, self.tax_per_fox_acc),
                fox_pool_balance: sat_sub(self.fox_pool_balance, self.fox_share(id)),
                ..self
            }
        }
    }

    /// The first transfer of at least one unit of a registered animal.
    pub open spec fn first_registered_animal(self, incoming: Seq<AlkaneTransfer>) -> Option<int> {
        first_match(incoming, |t: AlkaneTransfer| t.value >= 1 && self.is_registered_animal(t.id), 0)
    }

    /// The first transfer of at least one unit of a registered commitment.
    pub open spec fn first_registered_commitment(self, incoming: Seq<AlkaneTransfer>) -> Option<int> {
        first_match(incoming, |t: AlkaneTransfer| t.value >= 1 && self.is_registered_commitment(t.id), 0)
    }

    /// Why an animal presented for an operation is refused: dead, or not in
    /// the wanted staked state.
    pub open spec fn animal_auth_error(self, id: AlkaneId, is_dead: u128, want_staked: bool) -> Option<GameError> {
        if is_dead != 0 {
            Some(GameError::AnimalDead)
        } else if want_staked && !self.is_staked(id) {
            Some(GameError::AnimalNotStaked)
        } else if !want_staked && self.is_staked(id) {
            Some(GameError::AnimalAlreadyStaked)
        } else {
            None
        }
    }
}

/// The first index at or after `from` whose transfer satisfies `p`.
pub open spec fn first_match(s: Seq<AlkaneTransfer>, p: spec_fn(AlkaneTransfer) -> bool, from: int) -> Option<int>
    decreases s.len() - from,
{
    if from < 0 || from >= s.len() {
        None
    } else if p(s[from]) {
        Some(from)
    } else {
        first_match(s, p, from + 1)
    }
}

/// The call that sets an animal's last-claim block.
pub open spec fn set_last_claim_call(id: AlkaneId, block: u128) -> (AlkaneId, Seq<u128>) {
    (id, seq![1u128, block])
}

/// The call that sets an animal's accumulated taxes.
pub open spec fn set_taxes_call(id: AlkaneId, taxes: u128) -> (AlkaneId, Seq<u128>) {
    (id, seq![2u128, taxes])
}

/// The call that converts an animal to a fox.
pub open spec fn convert_to_fox_call(id: AlkaneId) -> (AlkaneId, Seq<u128>) {
    (id, seq![3u128])
}

/// The call that marks an animal dead.
pub open spec fn mark_dead_call(id: AlkaneId) -> (AlkaneId, Seq<u128>) {
    (id, seq![4u128])
}

/// The call that sets an animal's hunt-in-progress flag.
pub open spec fn set_hunt_flag_call(id: AlkaneId, value: u128) -> (AlkaneId, Seq<u128>) {
    (id, seq![5u128, value])
}

/// The call that marks a commitment consumed.
pub open spec fn mark_consumed_call(id: AlkaneId) -> (AlkaneId, Seq<u128>) {
    (id, seq![1u128])
}

// =====================================================================
// Executable helpers
// =====================================================================

/// The index of the first transfer satisfying the registration test
/// `registered`, scanning `incoming` in order.
fn scan_registered(incoming: &Vec<AlkaneTransfer>, map: &IdMap, Ghost(p): Ghost<spec_fn(AlkaneTransfer) -> bool>) -> (r: Option<usize>)
    requires
        forall|t: AlkaneTransfer| #[trigger] p(t) == (t.value >= 1 && get_or_zero(map@, t.id) == 1),
    ensures
        match r {
            Some(i) => first_match(incoming@, p, 0) == Some(i as int),
            None => first_match(incoming@, p, 0) is None,
        },
        r matches Some(i) ==> i < incoming.len(),
{
    let mut i: usize = incoming.len();
    let mut found: Option<usize> = None;
    // scan backwards so the last hit kept is the first in order
    while i > 0
        invariant
            i <= incoming.len(),
            forall|t: AlkaneTransfer| #[trigger] p(t) == (t.value >= 1 && get_or_zero(map@, t.id) == 1),
            match found {
                Some(j) => first_match(incoming@, p, i as int) == Some(j as int),
                None => first_match(incoming@, p, i as int) is None,
            },
            found matches Some(j) ==> j < incoming.len(),
        decreases i,
    {
        i = i - 1;
        let t = incoming[i];
        if t.value >= 1 && map.get(&t.id) == 1 {
            found = Some(i);
        }
    }
    found
}

impl FoxkanesGame {
    /// A fresh, uninitialized game: every storage cell unset.
    pub fn new() -> (r: FoxkanesGame)
        ensures
            r@.wf(),
            r@ == empty_game_view(),
    {
        let r = FoxkanesGame {
            initialized: false,
            animal_template: 0,
            commitment_template: 0,
            genesis_block: 0,
            fox_count: 0,
            farmer_count: 0,
            total_animals_minted: 0,
            animal_seq: 0,
            commitment_seq: 0,
            day_weight: WordMap::new(),
            day_mints: WordMap::new(),
            last_day_mints: 0,
            animal_child: IdMap::new(),
            commitment_child: IdMap::new(),
            animal_staked: IdMap::new(),
            staked_fox_count: 0,
            staked_farmer_count: 0,
            tax_per_fox_acc: 0,
            fox_ck: IdMap::new(),
            fox_pool_lifetime: 0,
            fox_pool_balance: 0,
            hunt_seq: 0,
            hunts: HashMap::new(),
            animal_aging: IdMap::new(),
            max_fox_unclaimed: 0,
            lifetime_failed_hunts: 0,
            lifetime_total_hunts: 0,
            total_expirations: 0,
            latest_animal_id: AlkaneId { block: 0, tx: 0 },
            latest_commitment_id: AlkaneId { block: 0, tx: 0 },
        };
        assert(r@.hunts =~= Map::<u128, HuntView>::empty());
        assert(r@ =~= empty_game_view());
        r
    }

    // ── Field readers ────────────────────────────────────────────────

    pub fn animal_template(&self) -> (r: u128)
        ensures
            r == self@.animal_template,
    {
        self.animal_template
    }

    pub fn commitment_template(&self) -> (r: u128)
        ensures
            r == self@.commitment_template,
    {
        self.commitment_template
    }

    pub fn genesis_block(&self) -> (r: u128)
        ensures
            r == self@.genesis_block,
    {
        self.genesis_block
    }

    pub fn fox_count(&self) -> (r: u128)
        ensures
            r == self@.fox_count,
    {
        self.fox_count
    }

    pub fn farmer_count(&self) -> (r: u128)
        ensures
            r == self@.farmer_count,
    {
        self.farmer_count
    }

    pub fn animal_seq(&self) -> (r: u128)
        ensures
            r == self@.animal_seq,
    {
        self.animal_seq
    }

    pub fn commitment_seq(&self) -> (r: u128)
        ensures
            r == self@.commitment_seq,
    {
        self.commitment_seq
    }

    /// Accumulated lottery weight of day `day_id`.
    pub fn day_weight(&self, day_id: u128) -> (r: u128)
        ensures
            r == get_or_zero(self@.day_weight, day_id),
    {
        self.day_weight.get(day_id)
    }

    /// Animals minted on day `day_id`.
    pub fn day_mints(&self, day_id: u128) -> (r: u128)
        ensures
            r == get_or_zero(self@.day_mints, day_id),
    {
        self.day_mints.get(day_id)
    }

    /// The last closed day's mint count; before any day closes, the hard
    /// cap on daily mints, so that lifespans have a sane default.
    pub fn last_day_mints(&self) -> (r: u128)
        ensures
            r == self@.effective_last_day_mints(),
    {
        let v = self.last_day_mints;
        if v == 0 {
            HARDCODED_MAX_DAILY_MINTS
        } else {
            v
        }
    }

    pub fn staked_fox_count(&self) -> (r: u128)
        ensures
            r == self@.staked_fox_count,
    {
        self.staked_fox_count
    }

    pub fn staked_farmer_count(&self) -> (r: u128)
        ensures
            r == self@.staked_farmer_count,
    {
        self.staked_farmer_count
    }

    pub fn tax_per_fox_acc(&self) -> (r: u128)
        ensures
            r == self@.tax_per_fox_acc,
    {
        self.tax_per_fox_acc
    }

    /// A fox's accumulator checkpoint.
    pub fn fox_acc_checkpoint(&self, id: &AlkaneId) -> (r: u128)
        ensures
            r == get_or_zero(self@.fox_ck, *id),
    {
        self.fox_ck.get(id)
    }

    pub fn fox_pool_balance(&self) -> (r: u128)
        ensures
            r == self@.fox_pool_balance,
    {
        self.fox_pool_balance
    }

    pub fn fox_pool_lifetime(&self) -> (r: u128)
        ensures
            r == self@.fox_pool_lifetime,
    {
        self.fox_pool_lifetime
    }

    // ── Registry ────────────────────────────────────────────────────

    pub fn register_animal(&mut self, id: &AlkaneId)
        ensures
            final(self)@ == (GameView { animal_child: old(self)@.animal_child.insert(*id, 1), ..old(self)@ }),
    {
        self.animal_child.set(id, 1);
    }

    pub fn is_registered_animal(&self, id: &AlkaneId) -> (r: bool)
        ensures
            r == self@.is_registered_animal(*id),
    {
        self.animal_child.get(id) == 1
    }

    pub fn register_commitment(&mut self, id: &AlkaneId)
        ensures
            final(self)@ == (GameView { commitment_child: old(self)@.commitment_child.insert(*id, 1), ..old(self)@ }),
    {
        self.commitment_child.set(id, 1);
    }

    pub fn is_registered_commitment(&self, id: &AlkaneId) -> (r: bool)
        ensures
            r == self@.is_registered_commitment(*id),
    {
        self.commitment_child.get(id) == 1
    }

    pub fn is_staked(&self, id: &AlkaneId) -> (r: bool)
        ensures
            r == self@.is_staked(*id),
    {
        self.animal_staked.get(id) == 1
    }

    // ── Clock, seed, yield ─────────────────────────────────────────

    /// The lottery day of `height`.
    pub fn current_day_id(&self, height: u64) -> (r: u128)
        ensures
            r == day_id_spec(self@.genesis_block, height),
    {
        let h = height as u128;
        let g = self.genesis_block;
        if h < g {
            0
        } else {
            (h - g) / (LOTTERY_COMMIT_WINDOW as u128)
        }
    }

    /// The seed of a draw made at `height` for `id` on `lottery_day_id`.
    pub fn derive_seed(&self, height: u64, commitment_id: u128, lottery_day_id: u128) -> (r: u128)
        ensures
            r == seed_spec(height, commitment_id, lottery_day_id),
    {
        let h = height as u128;
        let a = h.wrapping_mul(0x9E3779B97F4A7C15_9E3779B97F4A7C15u128);
        let b = commitment_id.wrapping_mul(0xBF58476D1CE4E5B9_BF58476D1CE4E5B9u128);
        let c = lottery_day_id.wrapping_mul(0x94D049BB133111EB_94D049BB133111EBu128);
        let mixed = a ^ b ^ c;
        let rotated = (mixed << 31u128) | (mixed >> 97u128);
        rotated.wrapping_mul(0x2545F4914F6CDD1D_2545F4914F6CDD1Du128)
    }

    /// Pre-tax yield owed to an animal since `last_claim_block`.
    pub fn compute_yield_units(&self, height: u64, last_claim_block: u128) -> (r: u128)
        ensures
            r == yield_spec(height, last_claim_block),
    {
        let current_height = height as u128;
        if current_height <= last_claim_block {
            return 0;
        }
        let elapsed = current_height - last_claim_block;
        saturating_mul(elapsed, TEST_YIELD_PER_BLOCK_PER_STAKE)
    }

    // ── Fox pool ───────────────────────────────────────────────────

    /// Pay `tax` into the fox pool, split evenly over the staked foxes
    /// through the per-fox accumulator.
    pub fn distribute_tax_to_foxes(&mut self, tax: u128)
        ensures
            final(self)@ == old(self)@.after_distribute(tax),
    {
        if tax == 0 {
            return;
        }
        let fox_count = self.staked_fox_count;
        if fox_count > 0 {
            let acc = self.tax_per_fox_acc;
            let add = saturating_mul(tax, PRECISION) / fox_count;
            self.tax_per_fox_acc = acc.saturating_add(add);
        }
        self.fox_pool_balance = self.fox_pool_balance.saturating_add(tax);
        self.fox_pool_lifetime = self.fox_pool_lifetime.saturating_add(tax);
    }

    /// The tax a farmer owes on `yield_units` at the current population.
    pub fn farmer_tax_owed(&self, yield_units: u128) -> (r: u128)
        ensures
            r == self@.farmer_tax(yield_units),
    {
        let bps = compute_tax_bps(self.fox_count, self.farmer_count);
        saturating_mul(yield_units, bps) / BPS
    }

    /// Withdraw a fox's share of the pool: move its checkpoint to the
    /// accumulator and take the share off the pool balance.
    pub fn fox_claim_share(&mut self, id: &AlkaneId) -> (r: u128)
        ensures
            r == old(self)@.fox_share(*id),
            final(self)@ == old(self)@.after_fox_claim(*id),
    {
        let acc = self.tax_per_fox_acc;
        let ck = self.fox_ck.get(id);
        if acc <= ck {
            return 0;
        }
        let diff = acc - ck;
        let share = diff / PRECISION;
        self.fox_ck.set(id, acc);
        self.fox_pool_balance = self.fox_pool_balance.saturating_sub(share);
        share
    }

    // ── Presented receipts ─────────────────────────────────────────

    /// The first registered animal among the incoming alkanes.
    pub fn find_registered_animal(&self, incoming: &Vec<AlkaneTransfer>) -> (r: Result<AlkaneId, GameError>)
        ensures
            match self@.first_registered_animal(incoming@) {
                Some(i) => r == Ok::<AlkaneId, GameError>(incoming@[i].id),
                None => r == Err::<AlkaneId, GameError>(GameError::NoAnimalPresented),
            },
    {
        let ghost p = |t: AlkaneTransfer| t.value >= 1 && self@.is_registered_animal(t.id);
        match scan_registered(incoming, &self.animal_child, Ghost(p)) {
            Some(i) => Ok(incoming[i].id),
            None => Err(GameError::NoAnimalPresented),
        }
    }

    /// The first registered commitment among the incoming alkanes.
    pub fn find_registered_commitment(&self, incoming: &Vec<AlkaneTransfer>) -> (r: Result<AlkaneId, GameError>)
        ensures
            match self@.first_registered_commitment(incoming@) {
                Some(i) => r == Ok::<AlkaneId, GameError>(incoming@[i].id),
                None => r == Err::<AlkaneId, GameError>(GameError::NoCommitmentPresented),
            },
    {
        let ghost p = |t: AlkaneTransfer| t.value >= 1 && self@.is_registered_commitment(t.id);
        match scan_registered(incoming, &self.commitment_child, Ghost(p)) {
            Some(i) => Ok(incoming[i].id),
            None => Err(GameError::NoCommitmentPresented),
        }
    }

    /// Check an animal presented for an operation: alive, and staked or
    /// not as the operation wants.
    pub fn authenticate_animal(&self, id: &AlkaneId, is_dead: u128, want_staked: bool) -> (r: Result<(), GameError>)
        ensures
            match self@.animal_auth_error(*id, is_dead, want_staked) {
                Some(e) => r == Err::<(), GameError>(e),
                None => r is Ok,
            },
    {
        if is_dead != 0 {
            return Err(GameError::AnimalDead);
        }
        let staked_now = self.is_staked(id);
        if want_staked && !staked_now {
            return Err(GameError::AnimalNotStaked);
        }
        if !want_staked && staked_now {
            return Err(GameError::AnimalAlreadyStaked);
        }
        Ok(())
    }
}

/// The call that sets an animal's last-claim block.
pub fn set_last_claim(id: AlkaneId, block: u128) -> (r: Cellpack)
    ensures
        (r.target, r.inputs@) == set_last_claim_call(id, block),
{
    let r = Cellpack { target: id, inputs: vec![1u128, block] };
    assert(r.inputs@ =~= seq![1u128, block]);
    r
}

/// The call that sets an animal's hunt-in-progress flag.
pub fn set_hunt_flag(id: AlkaneId, value: u128) -> (r: Cellpack)
    ensures
        (r.target, r.inputs@) == set_hunt_flag_call(id, value),
{
    let r = Cellpack { target: id, inputs: vec![5u128, value] };
    assert(r.inputs@ =~= seq![5u128, value]);
    r
}

} // verus!
