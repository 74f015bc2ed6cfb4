//! The game's read-only opcodes. Each hands the incoming alkanes back and
//! answers with little-endian `u128` words.

use vstd::prelude::*;
use crate::arith::sat_sub;
use crate::codec::{encode_words, le_bytes, le_words, u128_to_le_bytes};
use crate::game::{day_id_spec, yield_spec, FoxkanesGame, GameView};
use crate::store::get_or_zero;
use crate::support::{compute_lifespan_blocks, compute_tax_bps, lifespan_blocks_spec, tax_bps_spec};
use crate::types::{copy_transfers, AlkaneId, AlkaneTransfer, AnimalDetails, CallResponse};

verus! {

broadcast use vstd::std_specs::hash::group_hash_axioms;

/// A response that forwards `incoming` and answers the word `v`.
pub fn word_response(incoming: &Vec<AlkaneTransfer>, v: u128) -> (r: CallResponse)
    ensures
        r.alkanes@ == incoming@,
        r.data@ == le_bytes(v as nat, 16),
{
    CallResponse { alkanes: copy_transfers(incoming), data: u128_to_le_bytes(v) }
}

/// A response that forwards `incoming` and answers the words `vals`.
pub fn words_response(incoming: &Vec<AlkaneTransfer>, vals: &Vec<u128>) -> (r: CallResponse)
    ensures
        r.alkanes@ == incoming@,
        r.data@ == le_words(vals@),
{
    CallResponse { alkanes: copy_transfers(incoming), data: encode_words(vals) }
}

impl GameView {
    /// The six recorded fields of a hunt, zeros for an unknown hunt.
    pub open spec fn hunt_words(self, hunt_id: u128) -> Seq<u128> {
        if self.hunts.contains_key(hunt_id) {
            let h = self.hunts[hunt_id];
            seq![h.target.block, h.target.tx, h.party_size, h.init_block, h.resolved, h.success]
        } else {
            seq![0u128, 0u128, 0u128, 0u128, 0u128, 0u128]
        }
    }
}

impl FoxkanesGame {
    /// Opcode 20: the undistributed fox-pool balance.
    pub fn get_fox_pool(&self, incoming: &Vec<AlkaneTransfer>) -> (r: CallResponse)
        ensures
            r.alkanes@ == incoming@,
            r.data@ == le_bytes(self@.fox_pool_balance as nat, 16),
    {
        word_response(incoming, self.fox_pool_balance)
    }

    /// Opcode 21: everything ever paid into the fox pool.
    pub fn get_fox_pool_lifetime(&self, incoming: &Vec<AlkaneTransfer>) -> (r: CallResponse)
        ensures
            r.alkanes@ == incoming@,
            r.data@ == le_bytes(self@.fox_pool_lifetime as nat, 16),
    {
        word_response(incoming, self.fox_pool_lifetime)
    }

    /// Opcode 22: the pre-tax yield a registered animal (whose receipt
    /// reports `d`) has accrued by `height`; zero for an unregistered id,
    /// whose `d` is not looked at.
    pub fn preview_yield(&self, height: u64, id: &AlkaneId, d: &AnimalDetails, incoming: &Vec<AlkaneTransfer>) -> (r: CallResponse)
        ensures
            r.alkanes@ == incoming@,
            r.data@ == le_bytes(
                (if self@.is_registered_animal(*id) { yield_spec(height, d.last_claim_block) } else { 0 }) as nat,
                16,
            ),
    {
        let units = if self.is_registered_animal(id) {
            self.compute_yield_units(height, d.last_claim_block)
        } else {
            0
        };
        word_response(incoming, units)
    }

    /// Opcode 23: the most recently created animal's id, as two words.
    pub fn get_latest_animal_id(&self, incoming: &Vec<AlkaneTransfer>) -> (r: CallResponse)
        ensures
            r.alkanes@ == incoming@,
            r.data@ == le_words(seq![self@.latest_animal_id.block, self@.latest_animal_id.tx]),
    {
        let vals = vec![self.latest_animal_id.block, self.latest_animal_id.tx];
        assert(vals@ =~= seq![self@.latest_animal_id.block, self@.latest_animal_id.tx]);
        words_response(incoming, &vals)
    }

    /// Opcode 24: the most recently created commitment's id, as two words.
    pub fn get_latest_commitment_id(&self, incoming: &Vec<AlkaneTransfer>) -> (r: CallResponse)
        ensures
            r.alkanes@ == incoming@,
            r.data@ == le_words(seq![self@.latest_commitment_id.block, self@.latest_commitment_id.tx]),
    {
        let vals = vec![self.latest_commitment_id.block, self.latest_commitment_id.tx];
        assert(vals@ =~= seq![self@.latest_commitment_id.block, self@.latest_commitment_id.tx]);
        words_response(incoming, &vals)
    }

    /// Opcode 25: a hunt's target block and tx, party size, start block,
    /// resolved and success flags, as six words (zeros for an unknown hunt).
    pub fn get_hunt(&self, hunt_id: u128, incoming: &Vec<AlkaneTransfer>) -> (r: CallResponse)
        ensures
            r.alkanes@ == incoming@,
            r.data@ == le_words(self@.hunt_words(hunt_id)),
    {
        let vals = match self.hunts.get(&hunt_id) {
            Some(h) => vec![h.target.block, h.target.tx, h.party_size, h.init_block, h.resolved, h.success],
            None => vec![0u128, 0u128, 0u128, 0u128, 0u128, 0u128],
        };
        assert(vals@ =~= self@.hunt_words(hunt_id));
        words_response(incoming, &vals)
    }

    /// Opcode 26: hunts ever started.
    pub fn get_total_hunts(&self, incoming: &Vec<AlkaneTransfer>) -> (r: CallResponse)
        ensures
            r.alkanes@ == incoming@,
            r.data@ == le_bytes(self@.lifetime_total_hunts as nat, 16),
    {
        word_response(incoming, self.lifetime_total_hunts)
    }

    /// Opcode 27: failed hunts (the lifetime count stands for the recent one).
    pub fn get_recent_failed_hunts(&self, incoming: &Vec<AlkaneTransfer>) -> (r: CallResponse)
        ensures
            r.alkanes@ == incoming@,
            r.data@ == le_bytes(self@.lifetime_failed_hunts as nat, 16),
    {
        word_response(incoming, self.lifetime_failed_hunts)
    }

    /// Opcode 28: hunts (the lifetime count stands for the recent one).
    pub fn get_recent_total_hunts(&self, incoming: &Vec<AlkaneTransfer>) -> (r: CallResponse)
        ensures
            r.alkanes@ == incoming@,
            r.data@ == le_bytes(self@.lifetime_total_hunts as nat, 16),
    {
        word_response(incoming, self.lifetime_total_hunts)
    }

    /// Opcode 29: the aging an animal took from failed hunts.
    pub fn get_animal_aging(&self, block: u128, tx: u128, incoming: &Vec<AlkaneTransfer>) -> (r: CallResponse)
        ensures
            r.alkanes@ == incoming@,
            r.data@ == le_bytes(get_or_zero(self@.animal_aging, AlkaneId { block, tx }) as nat, 16),
    {
        let id = AlkaneId { block, tx };
        word_response(incoming, self.animal_aging.get(&id))
    }

    /// Opcode 30: the largest fox taxes seen at a hunt's start.
    pub fn get_max_fox_unclaimed(&self, incoming: &Vec<AlkaneTransfer>) -> (r: CallResponse)
        ensures
            r.alkanes@ == incoming@,
            r.data@ == le_bytes(self@.max_fox_unclaimed as nat, 16),
    {
        word_response(incoming, self.max_fox_unclaimed)
    }

    /// Opcode 31: the block from which a registered animal (whose receipt
    /// reports `d`) can be expired; zero for an unregistered id.
    pub fn get_expire_block(&self, block: u128, tx: u128, d: &AnimalDetails, incoming: &Vec<AlkaneTransfer>) -> (r: CallResponse)
        ensures
            r.alkanes@ == incoming@,
            r.data@ == le_bytes(
                (if self@.is_registered_animal(AlkaneId { block, tx }) {
                    self@.effective_end(AlkaneId { block, tx }, *d)
                } else {
                    0
                }) as nat,
                16,
            ),
    {
        let id = AlkaneId { block, tx };
        let effective = if self.is_registered_animal(&id) {
            let aging = self.animal_aging.get(&id);
            d.birth_block.saturating_add(d.lifespan).saturating_sub(aging)
        } else {
            0
        };
        word_response(incoming, effective)
    }

    /// Opcode 32: expirations ever processed.
    pub fn get_total_expirations(&self, incoming: &Vec<AlkaneTransfer>) -> (r: CallResponse)
        ensures
            r.alkanes@ == incoming@,
            r.data@ == le_bytes(self@.total_expirations as nat, 16),
    {
        word_response(incoming, self.total_expirations)
    }

    /// Opcode 10: the fox and farmer counts, as two words.
    pub fn get_population(&self, incoming: &Vec<AlkaneTransfer>) -> (r: CallResponse)
        ensures
            r.alkanes@ == incoming@,
            r.data@ == le_words(seq![self@.fox_count, self@.farmer_count]),
    {
        let vals = vec![self.fox_count, self.farmer_count];
        assert(vals@ =~= seq![self@.fox_count, self@.farmer_count]);
        words_response(incoming, &vals)
    }

    /// Opcode 11: the current safe-claim tax rate in bps.
    pub fn get_current_tax_bps(&self, incoming: &Vec<AlkaneTransfer>) -> (r: CallResponse)
        ensures
            r.alkanes@ == incoming@,
            r.data@ == le_bytes(tax_bps_spec(self@.fox_count, self@.farmer_count) as nat, 16),
    {
        word_response(incoming, compute_tax_bps(self.fox_count, self.farmer_count))
    }

    /// Opcode 12: the lifespan in blocks of an animal minted now.
    pub fn get_current_lifespan_blocks(&self, incoming: &Vec<AlkaneTransfer>) -> (r: CallResponse)
        ensures
            r.alkanes@ == incoming@,
            r.data@ == le_bytes(lifespan_blocks_spec(self@.effective_last_day_mints()) as nat, 16),
    {
        let l = compute_lifespan_blocks(self.last_day_mints()) as u128;
        word_response(incoming, l)
    }

    /// Opcode 13: the weight committed so far to the day of `height`.
    pub fn get_current_day_weight(&self, height: u64, incoming: &Vec<AlkaneTransfer>) -> (r: CallResponse)
        ensures
            r.alkanes@ == incoming@,
            r.data@ == le_bytes(
                get_or_zero(self@.day_weight, day_id_spec(self@.genesis_block, height)) as nat,
                16,
            ),
    {
        let day = self.current_day_id(height);
        word_response(incoming, self.day_weight.get(day))
    }

    /// Opcode 14: animals ever minted.
    pub fn get_total_animals_minted(&self, incoming: &Vec<AlkaneTransfer>) -> (r: CallResponse)
        ensures
            r.alkanes@ == incoming@,
            r.data@ == le_bytes(self@.total_animals_minted as nat, 16),
    {
        word_response(incoming, self.total_animals_minted)
    }

    /// Opcode 15: commitments ever created (the sequence starts at one).
    pub fn get_total_commitments(&self, incoming: &Vec<AlkaneTransfer>) -> (r: CallResponse)
        ensures
            r.alkanes@ == incoming@,
            r.data@ == le_bytes(sat_sub(self@.commitment_seq, 1) as nat, 16),
    {
        let s = self.commitment_seq;
        let count = if s == 0 { 0 } else { s - 1 };
        word_response(incoming, count)
    }

    /// Opcode 16: the last closed day's mint count (the hard cap before any).
    pub fn get_last_day_mints(&self, incoming: &Vec<AlkaneTransfer>) -> (r: CallResponse)
        ensures
            r.alkanes@ == incoming@,
            r.data@ == le_bytes(self@.effective_last_day_mints() as nat, 16),
    {
        word_response(incoming, self.last_day_mints())
    }

    /// Opcode 17: 1 when `(block, tx)` is a registered animal, else 0.
    pub fn handle_is_registered_animal(&self, block: u128, tx: u128, incoming: &Vec<AlkaneTransfer>) -> (r: CallResponse)
        ensures
            r.alkanes@ == incoming@,
            r.data@ == le_bytes((if self@.is_registered_animal(AlkaneId { block, tx }) { 1nat } else { 0nat }), 16),
    {
        let id = AlkaneId { block, tx };
        let val: u128 = if self.is_registered_animal(&id) { 1 } else { 0 };
        word_response(incoming, val)
    }

    /// Opcode 18: 1 when `(block, tx)` is a registered commitment, else 0.
    pub fn handle_is_registered_commitment(&self, block: u128, tx: u128, incoming: &Vec<AlkaneTransfer>) -> (r: CallResponse)
        ensures
            r.alkanes@ == incoming@,
            r.data@ == le_bytes((if self@.is_registered_commitment(AlkaneId { block, tx }) { 1nat } else { 0nat }), 16),
    {
        let id = AlkaneId { block, tx };
        let val: u128 = if self.is_registered_commitment(&id) { 1 } else { 0 };
        word_response(incoming, val)
    }

    /// Opcode 19: the genesis block.
    pub fn get_genesis_block(&self, incoming: &Vec<AlkaneTransfer>) -> (r: CallResponse)
        ensures
            r.alkanes@ == incoming@,
            r.data@ == le_bytes(self@.genesis_block as nat, 16),
    {
        word_response(incoming, self.genesis_block)
    }
}

} // verus!
