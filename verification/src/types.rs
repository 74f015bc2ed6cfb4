//! Plain values that the contracts exchange with the runtime and with one
//! another: alkane ids, transfers, call descriptions, responses, and the
//! details records of the child receipts.

use vstd::prelude::*;
use crate::codec::{decode_word, word_at};

verus! {

/// An alkane's id: the block and transaction that created it.
#[derive(Clone, Copy, Debug, PartialEq, Eq, Structural)]
pub struct AlkaneId {
    pub block: u128,
    pub tx: u128,
}

/// `value` units of alkane `id`.
#[derive(Clone, Copy, Debug, PartialEq, Eq, Structural)]
pub struct AlkaneTransfer {
    pub id: AlkaneId,
    pub value: u128,
}

/// A call into another contract: the target and the opcode inputs.
#[derive(Debug)]
pub struct Cellpack {
    pub target: AlkaneId,
    pub inputs: Vec<u128>,
}

/// What a contract hands back: the alkanes it returns and its data bytes.
#[derive(Debug)]
pub struct CallResponse {
    pub alkanes: Vec<AlkaneTransfer>,
    pub data: Vec<u8>,
}

/// A call seen as its target and its inputs.
pub open spec fn call_view(c: Cellpack) -> (AlkaneId, Seq<u128>) {
    (c.target, c.inputs@)
}

/// A list of calls seen as targets and inputs.
pub open spec fn calls_view(cs: Seq<Cellpack>) -> Seq<(AlkaneId, Seq<u128>)> {
    cs.map_values(|c: Cellpack| call_view(c))
}

/// Adding a call to a list adds its view to the list's view.
pub proof fn lemma_calls_view_push(cs: Seq<Cellpack>, c: Cellpack)
    ensures
        calls_view(cs.push(c)) == calls_view(cs).push(call_view(c)),
{
    assert(calls_view(cs.push(c)) =~= calls_view(cs).push(call_view(c)));
}

/// The state of an animal receipt as its `GetAllDetails` reports it.
#[derive(Clone, Copy, Debug, PartialEq, Eq, Structural)]
pub struct AnimalDetails {
    pub animal_id: u128,
    /// 0 = farmer, 1 = fox.
    pub role: u128,
    pub birth_block: u128,
    pub lifespan: u128,
    pub accumulated_taxes: u128,
    pub last_claim_block: u128,
    pub is_dead: u128,
    pub hunt_in_progress: u128,
}

/// The state of a commitment receipt as its `GetAllDetails` reports it.
#[derive(Clone, Copy, Debug, PartialEq, Eq, Structural)]
pub struct CommitmentDetails {
    pub commitment_id: u128,
    pub bond_nft_block: u128,
    pub bond_nft_tx: u128,
    pub commit_block: u128,
    pub reveal_block: u128,
    pub weight: u128,
    pub lottery_day_id: u128,
    pub consumed: u128,
}

/// Why a details record could not be read.
#[derive(Clone, Copy, Debug, PartialEq, Eq, Structural)]
pub enum DetailsError {
    /// Fewer than the 128 bytes of eight words came back.
    TooShort { len: usize },
}

/// The eight words of a details record.
pub open spec fn details_word(data: Seq<u8>, i: int) -> u128 {
    word_at(data, i) as u128
}

impl AnimalDetails {
    /// The animal details that 128 or more data bytes encode.
    pub open spec fn decoded(data: Seq<u8>) -> AnimalDetails {
        AnimalDetails {
            animal_id: details_word(data, 0),
            role: details_word(data, 1),
            birth_block: details_word(data, 2),
            lifespan: details_word(data, 3),
            accumulated_taxes: details_word(data, 4),
            last_claim_block: details_word(data, 5),
            is_dead: details_word(data, 6),
            hunt_in_progress: details_word(data, 7),
        }
    }

    /// Decode the eight little-endian words of an animal's details.
    pub fn parse(data: &Vec<u8>) -> (r: Result<AnimalDetails, DetailsError>)
        ensures
            data.len() < 128 ==> r == Err::<AnimalDetails, DetailsError>(DetailsError::TooShort { len: data.len() }),
            data.len() >= 128 ==> r == Ok::<AnimalDetails, DetailsError>(AnimalDetails::decoded(data@)),
    {
        if data.len() < 128 {
            return Err(DetailsError::TooShort { len: data.len() });
        }
        Ok(AnimalDetails {
            animal_id: decode_word(data, 0),
            role: decode_word(data, 1),
            birth_block: decode_word(data, 2),
            lifespan: decode_word(data, 3),
            accumulated_taxes: decode_word(data, 4),
            last_claim_block: decode_word(data, 5),
            is_dead: decode_word(data, 6),
            hunt_in_progress: decode_word(data, 7),
        })
    }
}

impl CommitmentDetails {
    /// The commitment details that 128 or more data bytes encode.
    pub open spec fn decoded(data: Seq<u8>) -> CommitmentDetails {
        CommitmentDetails {
            commitment_id: details_word(data, 0),
            bond_nft_block: details_word(data, 1),
            bond_nft_tx: details_word(data, 2),
            commit_block: details_word(data, 3),
            reveal_block: details_word(data, 4),
            weight: details_word(data, 5),
            lottery_day_id: details_word(data, 6),
            consumed: details_word(data, 7),
        }
    }

    /// Decode the eight little-endian words of a commitment's details.
    pub fn parse(data: &Vec<u8>) -> (r: Result<CommitmentDetails, DetailsError>)
        ensures
            data.len() < 128 ==> r == Err::<CommitmentDetails, DetailsError>(DetailsError::TooShort { len: data.len() }),
            data.len() >= 128 ==> r == Ok::<CommitmentDetails, DetailsError>(CommitmentDetails::decoded(data@)),
    {
        if data.len() < 128 {
            return Err(DetailsError::TooShort { len: data.len() });
        }
        Ok(CommitmentDetails {
            commitment_id: decode_word(data, 0),
            bond_nft_block: decode_word(data, 1),
            bond_nft_tx: decode_word(data, 2),
            commit_block: decode_word(data, 3),
            reveal_block: decode_word(data, 4),
            weight: decode_word(data, 5),
            lottery_day_id: decode_word(data, 6),
            consumed: decode_word(data, 7),
        })
    }
}

/// A copy of a list of transfers.
pub fn copy_transfers(v: &Vec<AlkaneTransfer>) -> (r: Vec<AlkaneTransfer>)
    ensures
        r@ == v@,
{
    let mut r: Vec<AlkaneTransfer> = Vec::new();
    let mut i: usize = 0;
    while i < v.len()
        invariant
            i <= v.len(),
            r@ == v@.take(i as int),
        decreases v.len() - i,
    {
        r.push(v[i]);
        i = i + 1;
        assert(r@ =~= v@.take(i as int));
    }
    assert(v@.take(v.len() as int) =~= v@);
    r
}

} // verus!
