//! The two receipt contracts the game spawns: one per animal and one per
//! lottery entry. Each is created through the block-6 factory, mints its
//! single unit to its creator, records the fields it was created with, and
//! takes the creator (the game) as its vault: reads are open to anyone,
//! writes are accepted from the vault alone.

use vstd::prelude::*;
use crate::codec::{le_bytes, le_words, lemma_le_words_len, law_words_roundtrip};
use crate::game_views::{word_response, words_response};
use crate::types::{copy_transfers, details_word, AlkaneId, AlkaneTransfer, AnimalDetails, CallResponse, CommitmentDetails};

verus! {

/// Why a receipt refuses a call.
#[derive(Clone, Copy, Debug, PartialEq, Eq, Structural)]
pub enum ReceiptError {
    /// `Initialize` was already run.
    AlreadyInitialized,
    /// A write came before `Initialize`.
    NotInitialized,
    /// A write came from a caller other than the vault.
    NotVault,
    /// An animal's role must be 0 (farmer) or 1 (fox).
    InvalidRole { role: u128 },
    /// A lottery entry must carry weight.
    ZeroWeight,
    /// A lottery entry must be revealed after it was committed.
    RevealNotAfterCommit,
}

// ── Names ───────────────────────────────────────────────────────────────

/// The decimal digits of `n`, most significant first, as ASCII.
pub open spec fn decimal_spec(n: nat) -> Seq<u8>
    decreases n,
{
    if n < 10 {
        seq![(48 + n) as u8]
    } else {
        decimal_spec(n / 10).push((48 + n % 10) as u8)
    }
}

/// The decimal digits of `n` as ASCII.
pub fn decimal(n: u128) -> (r: Vec<u8>)
    ensures
        r@ == decimal_spec(n as nat),
    decreases n,
{
    if n < 10 {
        let r = vec![(48 + n) as u8];
        assert(r@ =~= seq![(48 + n) as u8]);
        r
    } else {
        let mut r = decimal(n / 10);
        r.push((48 + n % 10) as u8);
        r
    }
}

/// "Fox #"
pub open spec fn fox_prefix() -> Seq<u8> {
    seq![70u8, 111, 120, 32, 35]
}

/// "Farmer #"
pub open spec fn farmer_prefix() -> Seq<u8> {
    seq![70u8, 97, 114, 109, 101, 114, 32, 35]
}

/// "FK-"
pub open spec fn animal_symbol_prefix() -> Seq<u8> {
    seq![70u8, 75, 45]
}

/// "Commitment #"
pub open spec fn commitment_prefix() -> Seq<u8> {
    seq![67u8, 111, 109, 109, 105, 116, 109, 101, 110, 116, 32, 35]
}

/// "FK-CMT-"
pub open spec fn commitment_symbol_prefix() -> Seq<u8> {
    seq![70u8, 75, 45, 67, 77, 84, 45]
}

/// `prefix` followed by the decimal digits of `n`.
fn labelled(prefix: Vec<u8>, n: u128) -> (r: Vec<u8>)
    ensures
        r@ == prefix@ + decimal_spec(n as nat),
{
    let mut r = prefix;
    let mut digits = decimal(n);
    r.append(&mut digits);
    r
}

/// A response that forwards `incoming` and answers `data`.
fn data_response(incoming: &Vec<AlkaneTransfer>, data: Vec<u8>) -> (r: CallResponse)
    ensures
        r.alkanes@ == incoming@,
        r.data@ == data@,
{
    CallResponse { alkanes: copy_transfers(incoming), data }
}

/// A response that forwards `incoming` and mints one unit of `myself`.
fn mint_response(incoming: &Vec<AlkaneTransfer>, myself: AlkaneId) -> (r: CallResponse)
    ensures
        r.alkanes@ == incoming@.push(AlkaneTransfer { id: myself, value: 1 }),
        r.data@.len() == 0,
{
    let mut alkanes = copy_transfers(incoming);
    alkanes.push(AlkaneTransfer { id: myself, value: 1 });
    CallResponse { alkanes, data: Vec::new() }
}

// ── The animal receipt ──────────────────────────────────────────────────

/// An animal receipt's storage: one alkane per animal, held by its owner.
#[derive(Clone, Copy, Debug, PartialEq, Eq, Structural)]
pub struct FoxkanesAnimal {
    pub initialized: bool,
    /// The contract that created the animal; the only one that may write.
    pub vault_id: AlkaneId,
    pub animal_id: u128,
    /// 0 = farmer, 1 = fox.
    pub role: u128,
    pub birth_block: u128,
    pub lifespan_blocks: u128,
    pub accumulated_taxes: u128,
    pub last_claim_block: u128,
    pub is_dead: u128,
    pub hunt_in_progress: u128,
}

impl FoxkanesAnimal {
    /// The eight fields `GetAllDetails` reports, in order.
    pub open spec fn details_words(self) -> Seq<u128> {
        seq![
            self.animal_id,
            self.role,
            self.birth_block,
            self.lifespan_blocks,
            self.accumulated_taxes,
            self.last_claim_block,
            self.is_dead,
            self.hunt_in_progress,
        ]
    }

    /// The animal's details as the game reads them.
    pub open spec fn details(self) -> AnimalDetails {
        AnimalDetails {
            animal_id: self.animal_id,
            role: self.role,
            birth_block: self.birth_block,
            lifespan: self.lifespan_blocks,
            accumulated_taxes: self.accumulated_taxes,
            last_claim_block: self.last_claim_block,
            is_dead: self.is_dead,
            hunt_in_progress: self.hunt_in_progress,
        }
    }

    /// Why `Initialize` is refused.
    pub open spec fn initialize_error(self, role: u128) -> Option<ReceiptError> {
        if self.initialized {
            Some(ReceiptError::AlreadyInitialized)
        } else if role >= 2 {
            Some(ReceiptError::InvalidRole { role })
        } else {
            None
        }
    }

    /// The storage after `Initialize`: the fields recorded, the caller as
    /// vault, nothing accumulated, last claimed at birth, alive and idle.
    pub open spec fn after_initialize(
        self,
        caller: AlkaneId,
        animal_id: u128,
        role: u128,
        birth_block: u128,
        lifespan_blocks: u128,
    ) -> FoxkanesAnimal {
        FoxkanesAnimal {
            initialized: true,
            vault_id: caller,
            animal_id,
            role,
            birth_block,
            lifespan_blocks,
            accumulated_taxes: 0,
            last_claim_block: birth_block,
            is_dead: 0,
            hunt_in_progress: 0,
        }
    }

    /// Why a write from `caller` is refused.
    pub open spec fn write_error(self, caller: AlkaneId) -> Option<ReceiptError> {
        if !self.initialized {
            Some(ReceiptError::NotInitialized)
        } else if caller != self.vault_id {
            Some(ReceiptError::NotVault)
        } else {
            None
        }
    }

    /// Fresh, uninitialized storage.
    pub fn new() -> (r: FoxkanesAnimal)
        ensures
            !r.initialized,
            r.vault_id == (AlkaneId { block: 0, tx: 0 }),
            r.details_words() == seq![0u128, 0, 0, 0, 0, 0, 0, 0],
    {
        FoxkanesAnimal {
            initialized: false,
            vault_id: AlkaneId { block: 0, tx: 0 },
            animal_id: 0,
            role: 0,
            birth_block: 0,
            lifespan_blocks: 0,
            accumulated_taxes: 0,
            last_claim_block: 0,
            is_dead: 0,
            hunt_in_progress: 0,
        }
    }

    /// Opcode 0: record the animal's id, role, birth block and lifespan,
    /// take `caller` as the vault, and mint the single unit of `myself`.
    /// Refused when already initialized or for a role other than 0 or 1.
    pub fn initialize(
        &mut self,
        caller: AlkaneId,
        myself: AlkaneId,
        incoming: &Vec<AlkaneTransfer>,
        animal_id: u128,
        role: u128,
        birth_block: u128,
        lifespan_blocks: u128,
    ) -> (r: Result<CallResponse, ReceiptError>)
        ensures
            match old(self).initialize_error(role) {
                Some(e) => r == Err::<CallResponse, ReceiptError>(e) && *final(self) == *old(self),
                None => r matches Ok(resp) && {
                    &&& *final(self) == old(self).after_initialize(caller, animal_id, role, birth_block, lifespan_blocks)
                    &&& resp.alkanes@ == incoming@.push(AlkaneTransfer { id: myself, value: 1 })
                    &&& resp.data@.len() == 0
                },
            },
    {
        if self.initialized {
            return Err(ReceiptError::AlreadyInitialized);
        }
        if role >= 2 {
            return Err(ReceiptError::InvalidRole { role });
        }
        self.initialized = true;
        self.vault_id = caller;
        self.animal_id = animal_id;
        self.role = role;
        self.birth_block = birth_block;
        self.lifespan_blocks = lifespan_blocks;
        self.accumulated_taxes = 0;
        self.last_claim_block = birth_block;
        self.is_dead = 0;
        self.hunt_in_progress = 0;
        Ok(mint_response(incoming, myself))
    }

    /// Refuse a write before initialization or from anyone but the vault.
    fn check_vault(&self, caller: AlkaneId) -> (r: Result<(), ReceiptError>)
        ensures
            match self.write_error(caller) {
                Some(e) => r == Err::<(), ReceiptError>(e),
                None => r is Ok,
            },
    {
        if !self.initialized {
            return Err(ReceiptError::NotInitialized);
        }
        if caller.block != self.vault_id.block || caller.tx != self.vault_id.tx {
            return Err(ReceiptError::NotVault);
        }
        Ok(())
    }

    /// Opcode 1: set the block up to which the animal's yield is claimed.
    pub fn set_last_claim_block(&mut self, caller: AlkaneId, incoming: &Vec<AlkaneTransfer>, block: u128) -> (r: Result<CallResponse, ReceiptError>)
        ensures
            match old(self).write_error(caller) {
                Some(e) => r == Err::<CallResponse, ReceiptError>(e) && *final(self) == *old(self),
                None => r matches Ok(resp) && {
                    &&& *final(self) == (FoxkanesAnimal { last_claim_block: block, ..*old(self) })
                    &&& resp.alkanes@ == incoming@
                    &&& resp.data@.len() == 0
                },
            },
    {
        if let Err(e) = self.check_vault(caller) {
            return Err(e);
        }
        self.last_claim_block = block;
        Ok(data_response(incoming, Vec::new()))
    }

    /// Opcode 2: set the animal's unclaimed taxes.
    pub fn set_accumulated_taxes(&mut self, caller: AlkaneId, incoming: &Vec<AlkaneTransfer>, taxes: u128) -> (r: Result<CallResponse, ReceiptError>)
        ensures
            match old(self).write_error(caller) {
                Some(e) => r == Err::<CallResponse, ReceiptError>(e) && *final(self) == *old(self),
                None => r matches Ok(resp) && {
                    &&& *final(self) == (FoxkanesAnimal { accumulated_taxes: taxes, ..*old(self) })
                    &&& resp.alkanes@ == incoming@
                    &&& resp.data@.len() == 0
                },
            },
    {
        if let Err(e) = self.check_vault(caller) {
            return Err(e);
        }
        self.accumulated_taxes = taxes;
        Ok(data_response(incoming, Vec::new()))
    }

    /// Opcode 3: make the animal a fox; a fox stays a fox.
    pub fn convert_to_fox(&mut self, caller: AlkaneId, incoming: &Vec<AlkaneTransfer>) -> (r: Result<CallResponse, ReceiptError>)
        ensures
            match old(self).write_error(caller) {
                Some(e) => r == Err::<CallResponse, ReceiptError>(e) && *final(self) == *old(self),
                None => r matches Ok(resp) && {
                    &&& *final(self) == (FoxkanesAnimal { role: 1, ..*old(self) })
                    &&& resp.alkanes@ == incoming@
                    &&& resp.data@.len() == 0
                },
            },
    {
        if let Err(e) = self.check_vault(caller) {
            return Err(e);
        }
        self.role = 1;
        Ok(data_response(incoming, Vec::new()))
    }

    /// Opcode 4: mark the animal dead. Its fields stay readable.
    pub fn mark_dead(&mut self, caller: AlkaneId, incoming: &Vec<AlkaneTransfer>) -> (r: Result<CallResponse, ReceiptError>)
        ensures
            match old(self).write_error(caller) {
                Some(e) => r == Err::<CallResponse, ReceiptError>(e) && *final(self) == *old(self),
                None => r matches Ok(resp) && {
                    &&& *final(self) == (FoxkanesAnimal { is_dead: 1, ..*old(self) })
                    &&& resp.alkanes@ == incoming@
                    &&& resp.data@.len() == 0
                },
            },
    {
        if let Err(e) = self.check_vault(caller) {
            return Err(e);
        }
        self.is_dead = 1;
        Ok(data_response(incoming, Vec::new()))
    }

    /// Opcode 5: set or clear the hunt flag; any nonzero value sets it to 1.
    pub fn set_hunt_in_progress(&mut self, caller: AlkaneId, incoming: &Vec<AlkaneTransfer>, value: u128) -> (r: Result<CallResponse, ReceiptError>)
        ensures
            match old(self).write_error(caller) {
                Some(e) => r == Err::<CallResponse, ReceiptError>(e) && *final(self) == *old(self),
                None => r matches Ok(resp) && {
                    &&& *final(self) == (FoxkanesAnimal { hunt_in_progress: if value == 0 { 0 } else { 1 }, ..*old(self) })
                    &&& resp.alkanes@ == incoming@
                    &&& resp.data@.len() == 0
                },
            },
    {
        if let Err(e) = self.check_vault(caller) {
            return Err(e);
        }
        self.hunt_in_progress = if value == 0 { 0 } else { 1 };
        Ok(data_response(incoming, Vec::new()))
    }

    /// Opcode 10: the animal's id.
    pub fn get_animal_id(&self, incoming: &Vec<AlkaneTransfer>) -> (r: CallResponse)
        ensures
            r.alkanes@ == incoming@,
            r.data@ == le_bytes(self.animal_id as nat, 16),
    {
        word_response(incoming, self.animal_id)
    }

    /// Opcode 11: the role, 0 for a farmer and 1 for a fox.
    pub fn get_role(&self, incoming: &Vec<AlkaneTransfer>) -> (r: CallResponse)
        ensures
            r.alkanes@ == incoming@,
            r.data@ == le_bytes(self.role as nat, 16),
    {
        word_response(incoming, self.role)
    }

    /// Opcode 12: the birth block.
    pub fn get_birth_block(&self, incoming: &Vec<AlkaneTransfer>) -> (r: CallResponse)
        ensures
            r.alkanes@ == incoming@,
            r.data@ == le_bytes(self.birth_block as nat, 16),
    {
        word_response(incoming, self.birth_block)
    }

    /// Opcode 13: the lifespan in blocks.
    pub fn get_lifespan_blocks(&self, incoming: &Vec<AlkaneTransfer>) -> (r: CallResponse)
        ensures
            r.alkanes@ == incoming@,
            r.data@ == le_bytes(self.lifespan_blocks as nat, 16),
    {
        word_response(incoming, self.lifespan_blocks)
    }

    /// Opcode 14: the unclaimed taxes.
    pub fn get_accumulated_taxes(&self, incoming: &Vec<AlkaneTransfer>) -> (r: CallResponse)
        ensures
            r.alkanes@ == incoming@,
            r.data@ == le_bytes(self.accumulated_taxes as nat, 16),
    {
        word_response(incoming, self.accumulated_taxes)
    }

    /// Opcode 15: the block up to which yield is claimed.
    pub fn get_last_claim_block(&self, incoming: &Vec<AlkaneTransfer>) -> (r: CallResponse)
        ensures
            r.alkanes@ == incoming@,
            r.data@ == le_bytes(self.last_claim_block as nat, 16),
    {
        word_response(incoming, self.last_claim_block)
    }

    /// Opcode 16: 1 once the animal is dead.
    pub fn get_is_dead(&self, incoming: &Vec<AlkaneTransfer>) -> (r: CallResponse)
        ensures
            r.alkanes@ == incoming@,
            r.data@ == le_bytes(self.is_dead as nat, 16),
    {
        word_response(incoming, self.is_dead)
    }

    /// Opcode 17: 1 while the animal is on a hunt.
    pub fn get_hunt_in_progress(&self, incoming: &Vec<AlkaneTransfer>) -> (r: CallResponse)
        ensures
            r.alkanes@ == incoming@,
            r.data@ == le_bytes(self.hunt_in_progress as nat, 16),
    {
        word_response(incoming, self.hunt_in_progress)
    }

    /// Opcode 18: the vault id, as two words.
    pub fn get_vault_id(&self, incoming: &Vec<AlkaneTransfer>) -> (r: CallResponse)
        ensures
            r.alkanes@ == incoming@,
            r.data@ == le_words(seq![self.vault_id.block, self.vault_id.tx]),
    {
        let vals = vec![self.vault_id.block, self.vault_id.tx];
        assert(vals@ =~= seq![self.vault_id.block, self.vault_id.tx]);
        words_response(incoming, &vals)
    }

    /// Opcode 23: all eight fields, as words in their fixed order.
    pub fn get_all_details(&self, incoming: &Vec<AlkaneTransfer>) -> (r: CallResponse)
        ensures
            r.alkanes@ == incoming@,
            r.data@ == le_words(self.details_words()),
    {
        let vals = vec![
            self.animal_id,
            self.role,
            self.birth_block,
            self.lifespan_blocks,
            self.accumulated_taxes,
            self.last_claim_block,
            self.is_dead,
            self.hunt_in_progress,
        ];
        assert(vals@ =~= self.details_words());
        words_response(incoming, &vals)
    }

    /// The name: "Fox #" or "Farmer #" and the animal's id.
    pub open spec fn name_spec(self) -> Seq<u8> {
        (if self.role == 1 { fox_prefix() } else { farmer_prefix() }) + decimal_spec(self.animal_id as nat)
    }

    /// Opcode 99: the name.
    pub fn get_name(&self, incoming: &Vec<AlkaneTransfer>) -> (r: CallResponse)
        ensures
            r.alkanes@ == incoming@,
            r.data@ == self.name_spec(),
    {
        let prefix = if self.role == 1 {
            let p = vec![70u8, 111, 120, 32, 35];
            assert(p@ =~= fox_prefix());
            p
        } else {
            let p = vec![70u8, 97, 114, 109, 101, 114, 32, 35];
            assert(p@ =~= farmer_prefix());
            p
        };
        data_response(incoming, labelled(prefix, self.animal_id))
    }

    /// Opcode 100: the symbol, "FK-" and the animal's id.
    pub fn get_symbol(&self, incoming: &Vec<AlkaneTransfer>) -> (r: CallResponse)
        ensures
            r.alkanes@ == incoming@,
            r.data@ == animal_symbol_prefix() + decimal_spec(self.animal_id as nat),
    {
        let prefix = vec![70u8, 75, 45];
        assert(prefix@ =~= animal_symbol_prefix());
        data_response(incoming, labelled(prefix, self.animal_id))
    }
}

// ── The lottery-entry receipt ───────────────────────────────────────────

/// A lottery-entry receipt's storage: consumed at reveal.
#[derive(Clone, Copy, Debug, PartialEq, Eq, Structural)]
pub struct FoxkanesCommitment {
    pub initialized: bool,
    /// The contract that created the entry; the only one that may write.
    pub vault_id: AlkaneId,
    pub commitment_id: u128,
    pub bond_nft_block: u128,
    pub bond_nft_tx: u128,
    pub commit_block: u128,
    pub reveal_block: u128,
    pub weight: u128,
    pub lottery_day_id: u128,
    pub consumed: u128,
}

impl FoxkanesCommitment {
    /// The eight fields `GetAllDetails` reports, in order.
    pub open spec fn details_words(self) -> Seq<u128> {
        seq![
            self.commitment_id,
            self.bond_nft_block,
            self.bond_nft_tx,
            self.commit_block,
            self.reveal_block,
            self.weight,
            self.lottery_day_id,
            self.consumed,
        ]
    }

    /// The entry's details as the game reads them.
    pub open spec fn details(self) -> CommitmentDetails {
        CommitmentDetails {
            commitment_id: self.commitment_id,
            bond_nft_block: self.bond_nft_block,
            bond_nft_tx: self.bond_nft_tx,
            commit_block: self.commit_block,
            reveal_block: self.reveal_block,
            weight: self.weight,
            lottery_day_id: self.lottery_day_id,
            consumed: self.consumed,
        }
    }

    /// Why `Initialize` is refused.
    pub open spec fn initialize_error(self, commit_block: u128, reveal_block: u128, weight: u128) -> Option<ReceiptError> {
        if self.initialized {
            Some(ReceiptError::AlreadyInitialized)
        } else if weight == 0 {
            Some(ReceiptError::ZeroWeight)
        } else if reveal_block <= commit_block {
            Some(ReceiptError::RevealNotAfterCommit)
        } else {
            None
        }
    }

    /// Why a write from `caller` is refused.
    pub open spec fn write_error(self, caller: AlkaneId) -> Option<ReceiptError> {
        if !self.initialized {
            Some(ReceiptError::NotInitialized)
        } else if caller != self.vault_id {
            Some(ReceiptError::NotVault)
        } else {
            None
        }
    }

    /// Fresh, uninitialized storage.
    pub fn new() -> (r: FoxkanesCommitment)
        ensures
            !r.initialized,
            r.vault_id == (AlkaneId { block: 0, tx: 0 }),
            r.details_words() == seq![0u128, 0, 0, 0, 0, 0, 0, 0],
    {
        FoxkanesCommitment {
            initialized: false,
            vault_id: AlkaneId { block: 0, tx: 0 },
            commitment_id: 0,
            bond_nft_block: 0,
            bond_nft_tx: 0,
            commit_block: 0,
            reveal_block: 0,
            weight: 0,
            lottery_day_id: 0,
            consumed: 0,
        }
    }

    /// Opcode 0: record the entry's fields, unconsumed, take `caller` as
    /// the vault, and mint the single unit of `myself`. Refused when
    /// already initialized, for zero weight, or when the reveal block is
    /// not after the commit block.
    pub fn initialize(
        &mut self,
        caller: AlkaneId,
        myself: AlkaneId,
        incoming: &Vec<AlkaneTransfer>,
        commitment_id: u128,
        bond_nft_block: u128,
        bond_nft_tx: u128,
        commit_block: u128,
        reveal_block: u128,
        weight: u128,
        lottery_day_id: u128,
    ) -> (r: Result<CallResponse, ReceiptError>)
        ensures
            match old(self).initialize_error(commit_block, reveal_block, weight) {
                Some(e) => r == Err::<CallResponse, ReceiptError>(e) && *final(self) == *old(self),
                None => r matches Ok(resp) && {
                    &&& *final(self) == (FoxkanesCommitment {
                        initialized: true,
                        vault_id: caller,
                        commitment_id,
                        bond_nft_block,
                        bond_nft_tx,
                        commit_block,
                        reveal_block,
                        weight,
                        lottery_day_id,
                        consumed: 0,
                    })
                    &&& resp.alkanes@ == incoming@.push(AlkaneTransfer { id: myself, value: 1 })
                    &&& resp.data@.len() == 0
                },
            },
    {
        if self.initialized {
            return Err(ReceiptError::AlreadyInitialized);
        }
        if weight == 0 {
            return Err(ReceiptError::ZeroWeight);
        }
        if reveal_block <= commit_block {
            return Err(ReceiptError::RevealNotAfterCommit);
        }
        self.initialized = true;
        self.vault_id = caller;
        self.commitment_id = commitment_id;
        self.bond_nft_block = bond_nft_block;
        self.bond_nft_tx = bond_nft_tx;
        self.commit_block = commit_block;
        self.reveal_block = reveal_block;
        self.weight = weight;
        self.lottery_day_id = lottery_day_id;
        self.consumed = 0;
        Ok(mint_response(incoming, myself))
    }

    /// Opcode 1: mark the entry consumed.
    pub fn mark_consumed(&mut self, caller: AlkaneId, incoming: &Vec<AlkaneTransfer>) -> (r: Result<CallResponse, ReceiptError>)
        ensures
            match old(self).write_error(caller) {
                Some(e) => r == Err::<CallResponse, ReceiptError>(e) && *final(self) == *old(self),
                None => r matches Ok(resp) && {
                    &&& *final(self) == (FoxkanesCommitment { consumed: 1, ..*old(self) })
                    &&& resp.alkanes@ == incoming@
                    &&& resp.data@.len() == 0
                },
            },
    {
        if !self.initialized {
            return Err(ReceiptError::NotInitialized);
        }
        if caller.block != self.vault_id.block || caller.tx != self.vault_id.tx {
            return Err(ReceiptError::NotVault);
        }
        self.consumed = 1;
        Ok(data_response(incoming, Vec::new()))
    }

    /// Opcode 10: the entry's id.
    pub fn get_commitment_id(&self, incoming: &Vec<AlkaneTransfer>) -> (r: CallResponse)
        ensures
            r.alkanes@ == incoming@,
            r.data@ == le_bytes(self.commitment_id as nat, 16),
    {
        word_response(incoming, self.commitment_id)
    }

    /// Opcode 11: the bond receipt's id, as two words.
    pub fn get_bond_nft_id(&self, incoming: &Vec<AlkaneTransfer>) -> (r: CallResponse)
        ensures
            r.alkanes@ == incoming@,
            r.data@ == le_words(seq![self.bond_nft_block, self.bond_nft_tx]),
    {
        let vals = vec![self.bond_nft_block, self.bond_nft_tx];
        assert(vals@ =~= seq![self.bond_nft_block, self.bond_nft_tx]);
        words_response(incoming, &vals)
    }

    /// Opcode 12: the commit block.
    pub fn get_commit_block(&self, incoming: &Vec<AlkaneTransfer>) -> (r: CallResponse)
        ensures
            r.alkanes@ == incoming@,
            r.data@ == le_bytes(self.commit_block as nat, 16),
    {
        word_response(incoming, self.commit_block)
    }

    /// Opcode 13: the block from which the entry may be revealed.
    pub fn get_reveal_block(&self, incoming: &Vec<AlkaneTransfer>) -> (r: CallResponse)
        ensures
            r.alkanes@ == incoming@,
            r.data@ == le_bytes(self.reveal_block as nat, 16),
    {
        word_response(incoming, self.reveal_block)
    }

    /// Opcode 14: the entry's weight.
    pub fn get_weight(&self, incoming: &Vec<AlkaneTransfer>) -> (r: CallResponse)
        ensures
            r.alkanes@ == incoming@,
            r.data@ == le_bytes(self.weight as nat, 16),
    {
        word_response(incoming, self.weight)
    }

    /// Opcode 15: the lottery day.
    pub fn get_lottery_day_id(&self, incoming: &Vec<AlkaneTransfer>) -> (r: CallResponse)
        ensures
            r.alkanes@ == incoming@,
            r.data@ == le_bytes(self.lottery_day_id as nat, 16),
    {
        word_response(incoming, self.lottery_day_id)
    }

    /// Opcode 16: 1 once the entry is consumed.
    pub fn get_consumed(&self, incoming: &Vec<AlkaneTransfer>) -> (r: CallResponse)
        ensures
            r.alkanes@ == incoming@,
            r.data@ == le_bytes(self.consumed as nat, 16),
    {
        word_response(incoming, self.consumed)
    }

    /// Opcode 17: the vault id, as two words.
    pub fn get_vault_id(&self, incoming: &Vec<AlkaneTransfer>) -> (r: CallResponse)
        ensures
            r.alkanes@ == incoming@,
            r.data@ == le_words(seq![self.vault_id.block, self.vault_id.tx]),
    {
        let vals = vec![self.vault_id.block, self.vault_id.tx];
        assert(vals@ =~= seq![self.vault_id.block, self.vault_id.tx]);
        words_response(incoming, &vals)
    }

    /// Opcode 23: all eight fields, as words in their fixed order.
    pub fn get_all_details(&self, incoming: &Vec<AlkaneTransfer>) -> (r: CallResponse)
        ensures
            r.alkanes@ == incoming@,
            r.data@ == le_words(self.details_words()),
    {
        let vals = vec![
            self.commitment_id,
            self.bond_nft_block,
            self.bond_nft_tx,
            self.commit_block,
            self.reveal_block,
            self.weight,
            self.lottery_day_id,
            self.consumed,
        ];
        assert(vals@ =~= self.details_words());
        words_response(incoming, &vals)
    }

    /// Opcode 99: the name, "Commitment #" and the entry's id.
    pub fn get_name(&self, incoming: &Vec<AlkaneTransfer>) -> (r: CallResponse)
        ensures
            r.alkanes@ == incoming@,
            r.data@ == commitment_prefix() + decimal_spec(self.commitment_id as nat),
    {
        let prefix = vec![67u8, 111, 109, 109, 105, 116, 109, 101, 110, 116, 32, 35];
        assert(prefix@ =~= commitment_prefix());
        data_response(incoming, labelled(prefix, self.commitment_id))
    }

    /// Opcode 100: the symbol, "FK-CMT-" and the entry's id.
    pub fn get_symbol(&self, incoming: &Vec<AlkaneTransfer>) -> (r: CallResponse)
        ensures
            r.alkanes@ == incoming@,
            r.data@ == commitment_symbol_prefix() + decimal_spec(self.commitment_id as nat),
    {
        let prefix = vec![70u8, 75, 45, 67, 77, 84, 45];
        assert(prefix@ =~= commitment_symbol_prefix());
        data_response(incoming, labelled(prefix, self.commitment_id))
    }
}

// ── Laws ────────────────────────────────────────────────────────────────

/// What the game reads back of an animal is what the animal recorded: the
/// details its `GetAllDetails` writes are 128 bytes that decode to its
/// fields.
pub proof fn law_animal_details_roundtrip(a: FoxkanesAnimal)
    ensures
        le_words(a.details_words()).len() == 128,
        AnimalDetails::decoded(le_words(a.details_words())) == a.details(),
{
    let s = a.details_words();
    lemma_le_words_len(s);
    assert forall|i: int| 0 <= i < 8 implies details_word(le_words(s), i) == s[i] by {
        law_words_roundtrip(s, i);
    }
    assert(details_word(le_words(s), 0) == s[0]);
    assert(details_word(le_words(s), 1) == s[1]);
    assert(details_word(le_words(s), 2) == s[2]);
    assert(details_word(le_words(s), 3) == s[3]);
    assert(details_word(le_words(s), 4) == s[4]);
    assert(details_word(le_words(s), 5) == s[5]);
    assert(details_word(le_words(s), 6) == s[6]);
    assert(details_word(le_words(s), 7) == s[7]);
}

/// What the game reads back of a lottery entry is what the entry
/// recorded: its details are 128 bytes that decode to its fields.
pub proof fn law_commitment_details_roundtrip(c: FoxkanesCommitment)
    ensures
        le_words(c.details_words()).len() == 128,
        CommitmentDetails::decoded(le_words(c.details_words())) == c.details(),
{
    let s = c.details_words();
    lemma_le_words_len(s);
    assert forall|i: int| 0 <= i < 8 implies details_word(le_words(s), i) == s[i] by {
        law_words_roundtrip(s, i);
    }
    assert(details_word(le_words(s), 0) == s[0]);
    assert(details_word(le_words(s), 1) == s[1]);
    assert(details_word(le_words(s), 2) == s[2]);
    assert(details_word(le_words(s), 3) == s[3]);
    assert(details_word(le_words(s), 4) == s[4]);
    assert(details_word(le_words(s), 5) == s[5]);
    assert(details_word(le_words(s), 6) == s[6]);
    assert(details_word(le_words(s), 7) == s[7]);
}

/// An initialized receipt cannot be initialized again, and only its vault
/// can change it: a write from any other caller is refused.
pub proof fn law_receipt_vault_only(a: FoxkanesAnimal, c: FoxkanesCommitment, caller: AlkaneId)
    requires
        a.initialized,
        c.initialized,
    ensures
        forall|role: u128| a.initialize_error(role) == Some(ReceiptError::AlreadyInitialized),
        forall|cb: u128, rb: u128, w: u128| c.initialize_error(cb, rb, w) == Some(ReceiptError::AlreadyInitialized),
        caller != a.vault_id ==> a.write_error(caller) == Some(ReceiptError::NotVault),
        caller != c.vault_id ==> c.write_error(caller) == Some(ReceiptError::NotVault),
{
}

} // verus!
