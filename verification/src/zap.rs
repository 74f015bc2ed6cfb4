//! The zap router: takes a player's LP, bonds it into FIRE, enters the
//! lottery with the bond it got back, and hands the bond and the
//! commitment receipt to the player. It remembers only the two contracts
//! it routes through.

use vstd::prelude::*;
use crate::codec::le_words;
use crate::game_views::words_response;
use crate::types::{copy_transfers, AlkaneId, AlkaneTransfer, CallResponse, Cellpack};

verus! {

/// Why the zap refused a request.
#[derive(Clone, Copy, Debug, PartialEq, Eq, Structural)]
pub enum ZapError {
    /// Initialize was already called.
    AlreadyInitialized,
    /// The game id is `(0, 0)`.
    ZeroGameId,
    /// The fire-bonding id is `(0, 0)`.
    ZeroFireBondingId,
    /// The zap was never initialized.
    NotInitialized,
    /// No LP came with the call.
    NoLp,
    /// Fire-bonding returned no bond receipt.
    NoBondNft,
}

/// The zap contract's storage.
pub struct FoxkanesZap {
    pub initialized: bool,
    pub game_block: u128,
    pub game_tx: u128,
    pub fire_bonding_block: u128,
    pub fire_bonding_tx: u128,
}

/// Whether an id is the unset id `(0, 0)`.
pub open spec fn is_zero_id(block: u128, tx: u128) -> bool {
    block == 0 && tx == 0
}

/// The alkanes a zap hands back: the bond receipt, what the game returned
/// (the commitment receipt), then any change fire-bonding returned.
pub open spec fn zap_alkanes(bond: Seq<AlkaneTransfer>, enter: Seq<AlkaneTransfer>) -> Seq<AlkaneTransfer> {
    seq![bond[0]] + enter + bond.skip(1)
}

impl FoxkanesZap {
    /// A fresh, uninitialized zap.
    pub fn new() -> (r: FoxkanesZap)
        ensures
            !r.initialized,
            is_zero_id(r.game_block, r.game_tx),
            is_zero_id(r.fire_bonding_block, r.fire_bonding_tx),
    {
        FoxkanesZap { initialized: false, game_block: 0, game_tx: 0, fire_bonding_block: 0, fire_bonding_tx: 0 }
    }

    /// The game contract the zap enters lotteries with.
    pub fn game_id(&self) -> (r: AlkaneId)
        ensures
            r == (AlkaneId { block: self.game_block, tx: self.game_tx }),
    {
        AlkaneId { block: self.game_block, tx: self.game_tx }
    }

    /// The fire-bonding contract the zap bonds LP through.
    pub fn fire_bonding_id(&self) -> (r: AlkaneId)
        ensures
            r == (AlkaneId { block: self.fire_bonding_block, tx: self.fire_bonding_tx }),
    {
        AlkaneId { block: self.fire_bonding_block, tx: self.fire_bonding_tx }
    }

    /// One-shot initialization: record the game and fire-bonding ids,
    /// neither of which may be `(0, 0)`.
    pub fn initialize(&mut self, game_block: u128, game_tx: u128, fire_bonding_block: u128, fire_bonding_tx: u128) -> (r: Result<CallResponse, ZapError>)
        ensures
            old(self).initialized ==> r == Err::<CallResponse, ZapError>(ZapError::AlreadyInitialized),
            !old(self).initialized && is_zero_id(game_block, game_tx)
                ==> r == Err::<CallResponse, ZapError>(ZapError::ZeroGameId),
            !old(self).initialized && !is_zero_id(game_block, game_tx) && is_zero_id(fire_bonding_block, fire_bonding_tx)
                ==> r == Err::<CallResponse, ZapError>(ZapError::ZeroFireBondingId),
            r is Err ==> *final(self) == *old(self),
            r matches Ok(resp) ==> {
                &&& *final(self) == (FoxkanesZap { initialized: true, game_block, game_tx, fire_bonding_block, fire_bonding_tx })
                &&& resp.alkanes@.len() == 0
                &&& resp.data@.len() == 0
            },
            !old(self).initialized && !is_zero_id(game_block, game_tx) && !is_zero_id(fire_bonding_block, fire_bonding_tx)
                ==> r is Ok,
    {
        if self.initialized {
            return Err(ZapError::AlreadyInitialized);
        }
        if game_block == 0 && game_tx == 0 {
            return Err(ZapError::ZeroGameId);
        }
        if fire_bonding_block == 0 && fire_bonding_tx == 0 {
            return Err(ZapError::ZeroFireBondingId);
        }
        self.initialized = true;
        self.game_block = game_block;
        self.game_tx = game_tx;
        self.fire_bonding_block = fire_bonding_block;
        self.fire_bonding_tx = fire_bonding_tx;
        Ok(CallResponse { alkanes: Vec::new(), data: Vec::new() })
    }

    /// First step of a zap: the call that bonds the incoming LP through
    /// fire-bonding (opcode 1, no slippage floor), and the parcel it carries:
    /// all of the incoming alkanes. Refused before initialization or
    /// without LP.
    pub fn plan_bond(&self, incoming: &Vec<AlkaneTransfer>) -> (r: Result<(Cellpack, Vec<AlkaneTransfer>), ZapError>)
        ensures
            is_zero_id(self.game_block, self.game_tx)
                ==> r == Err::<(Cellpack, Vec<AlkaneTransfer>), ZapError>(ZapError::NotInitialized),
            !is_zero_id(self.game_block, self.game_tx) && incoming.len() == 0
                ==> r == Err::<(Cellpack, Vec<AlkaneTransfer>), ZapError>(ZapError::NoLp),
            !is_zero_id(self.game_block, self.game_tx) && incoming.len() > 0 ==> (r matches Ok((c, parcel)) && {
                &&& c.target == (AlkaneId { block: self.fire_bonding_block, tx: self.fire_bonding_tx })
                &&& c.inputs@ == seq![1u128, 0u128]
                &&& parcel@ == incoming@
            }),
    {
        let game = self.game_id();
        let fire_bonding = self.fire_bonding_id();
        if game.block == 0 && game.tx == 0 {
            return Err(ZapError::NotInitialized);
        }
        if incoming.len() == 0 {
            return Err(ZapError::NoLp);
        }
        let inputs = vec![1u128, 0u128];
        assert(inputs@ =~= seq![1u128, 0u128]);
        Ok((Cellpack { target: fire_bonding, inputs }, copy_transfers(incoming)))
    }

    /// Second step: with what fire-bonding returned, the call that enters
    /// the game's lottery (opcode 1) naming the bond receipt, which is the
    /// first alkane returned, and the parcel it carries: that receipt alone.
    pub fn plan_enter(&self, bond_alkanes: &Vec<AlkaneTransfer>) -> (r: Result<(Cellpack, Vec<AlkaneTransfer>), ZapError>)
        ensures
            bond_alkanes.len() == 0
                ==> r == Err::<(Cellpack, Vec<AlkaneTransfer>), ZapError>(ZapError::NoBondNft),
            bond_alkanes.len() > 0 ==> (r matches Ok((c, parcel)) && {
                &&& parcel@ == seq![bond_alkanes@[0]]
                &&& c.target == (AlkaneId { block: self.game_block, tx: self.game_tx })
                &&& c.inputs@ == seq![1u128, bond_alkanes@[0].id.block, bond_alkanes@[0].id.tx]
            }),
    {
        if bond_alkanes.len() == 0 {
            return Err(ZapError::NoBondNft);
        }
        let bond_nft = bond_alkanes[0];
        let inputs = vec![1u128, bond_nft.id.block, bond_nft.id.tx];
        assert(inputs@ =~= seq![1u128, bond_nft.id.block, bond_nft.id.tx]);
        let parcel = vec![bond_nft];
        assert(parcel@ =~= seq![bond_alkanes@[0]]);
        Ok((Cellpack { target: self.game_id(), inputs }, parcel))
    }

    /// Last step: the bond receipt, then what the game returned, then the
    /// change fire-bonding returned.
    pub fn zap_response(&self, bond_alkanes: &Vec<AlkaneTransfer>, enter_alkanes: &Vec<AlkaneTransfer>) -> (r: CallResponse)
        requires
            bond_alkanes.len() > 0,
        ensures
            r.alkanes@ == zap_alkanes(bond_alkanes@, enter_alkanes@),
            r.data@.len() == 0,
    {
        let mut alkanes: Vec<AlkaneTransfer> = Vec::new();
        alkanes.push(bond_alkanes[0]);
        let mut i: usize = 0;
        while i < enter_alkanes.len()
            invariant
                i <= enter_alkanes.len(),
                bond_alkanes.len() > 0,
                alkanes@ == seq![bond_alkanes@[0]] + enter_alkanes@.take(i as int),
            decreases enter_alkanes.len() - i,
        {
            alkanes.push(enter_alkanes[i]);
            i = i + 1;
            assert(alkanes@ =~= seq![bond_alkanes@[0]] + enter_alkanes@.take(i as int));
        }
        assert(enter_alkanes@.take(enter_alkanes.len() as int) =~= enter_alkanes@);
        let mut j: usize = 1;
        while j < bond_alkanes.len()
            invariant
                1 <= j <= bond_alkanes.len(),
                alkanes@ == seq![bond_alkanes@[0]] + enter_alkanes@ + bond_alkanes@.subrange(1, j as int),
            decreases bond_alkanes.len() - j,
        {
            alkanes.push(bond_alkanes[j]);
            j = j + 1;
            assert(alkanes@ =~= seq![bond_alkanes@[0]] + enter_alkanes@ + bond_alkanes@.subrange(1, j as int));
        }
        assert(bond_alkanes@.subrange(1, bond_alkanes.len() as int) =~= bond_alkanes@.skip(1));
        CallResponse { alkanes, data: Vec::new() }
    }

    /// Opcode 10: the game id, as two words.
    pub fn get_game_id(&self, incoming: &Vec<AlkaneTransfer>) -> (r: CallResponse)
        ensures
            r.alkanes@ == incoming@,
            r.data@ == le_words(seq![self.game_block, self.game_tx]),
    {
        let g = self.game_id();
        let vals = vec![g.block, g.tx];
        assert(vals@ =~= seq![self.game_block, self.game_tx]);
        words_response(incoming, &vals)
    }

    /// Opcode 11: the fire-bonding id, as two words.
    pub fn get_fire_bonding_id(&self, incoming: &Vec<AlkaneTransfer>) -> (r: CallResponse)
        ensures
            r.alkanes@ == incoming@,
            r.data@ == le_words(seq![self.fire_bonding_block, self.fire_bonding_tx]),
    {
        let f = self.fire_bonding_id();
        let vals = vec![f.block, f.tx];
        assert(vals@ =~= seq![self.fire_bonding_block, self.fire_bonding_tx]);
        words_response(incoming, &vals)
    }
}

} // verus!
