use foxkanes::codec::decode_word;
use foxkanes::receipts::{decimal, FoxkanesAnimal, FoxkanesCommitment, ReceiptError};
use foxkanes::types::{AlkaneId, AlkaneTransfer, AnimalDetails, CommitmentDetails};

const GAME: AlkaneId = AlkaneId { block: 4, tx: 0x200 };
const OTHER: AlkaneId = AlkaneId { block: 2, tx: 7 };

fn word(data: &Vec<u8>) -> u128 {
    assert_eq!(data.len(), 16);
    decode_word(data, 0)
}

fn words(data: &Vec<u8>, n: usize) -> Vec<u128> {
    assert_eq!(data.len(), 16 * n);
    (0..n).map(|i| decode_word(data, i)).collect()
}

fn animal(animal_id: u128, role: u128) -> FoxkanesAnimal {
    let mut a = FoxkanesAnimal::new();
    a.initialize(GAME, AlkaneId { block: 2, tx: 0x900 }, &vec![], animal_id, role, 880_001, 12_960).unwrap();
    a
}

fn commitment(commitment_id: u128) -> FoxkanesCommitment {
    let mut c = FoxkanesCommitment::new();
    c.initialize(GAME, AlkaneId { block: 2, tx: 0x901 }, &vec![], commitment_id, 4, 0x103, 881_000, 881_145, 42_424_242, 7)
        .unwrap();
    c
}

#[test]
fn animal_initialize_mints_and_records() {
    let mut a = FoxkanesAnimal::new();
    let me = AlkaneId { block: 2, tx: 0x900 };
    let r = a.initialize(GAME, me, &vec![], 42, 0, 880_001, 12_960).unwrap();
    assert_eq!(r.alkanes, vec![AlkaneTransfer { id: me, value: 1 }]);
    assert!(r.data.is_empty());
    assert_eq!(word(&a.get_role(&vec![]).data), 0);
    assert_eq!(word(&a.get_animal_id(&vec![]).data), 42);
    assert_eq!(word(&a.get_birth_block(&vec![]).data), 880_001);
    assert_eq!(word(&a.get_lifespan_blocks(&vec![]).data), 12_960);
    assert_eq!(word(&a.get_accumulated_taxes(&vec![]).data), 0);
    assert_eq!(word(&a.get_last_claim_block(&vec![]).data), 880_001);
    assert_eq!(word(&a.get_is_dead(&vec![]).data), 0);
    assert_eq!(word(&a.get_hunt_in_progress(&vec![]).data), 0);
    assert_eq!(words(&a.get_vault_id(&vec![]).data, 2), vec![4, 0x200]);
    assert_eq!(word(&animal(7, 1).get_role(&vec![]).data), 1);
}

#[test]
fn animal_initialize_refusals() {
    let mut a = FoxkanesAnimal::new();
    let me = AlkaneId { block: 2, tx: 0x900 };
    assert_eq!(a.initialize(GAME, me, &vec![], 1, 2, 880_001, 12_960).unwrap_err(), ReceiptError::InvalidRole { role: 2 });
    assert!(!a.initialized);
    a.initialize(GAME, me, &vec![], 1, 1, 880_001, 12_960).unwrap();
    let before = a;
    assert_eq!(a.initialize(GAME, me, &vec![], 2, 0, 1, 1).unwrap_err(), ReceiptError::AlreadyInitialized);
    assert_eq!(a, before);
}

#[test]
fn animal_details_packing() {
    let a = animal(99, 1);
    let r = a.get_all_details(&vec![]);
    assert_eq!(words(&r.data, 8), vec![99, 1, 880_001, 12_960, 0, 880_001, 0, 0]);
    let d = AnimalDetails::parse(&r.data).unwrap();
    assert_eq!(d.animal_id, 99);
    assert_eq!(d.lifespan, 12_960);
    assert_eq!(d.last_claim_block, 880_001);
}

#[test]
fn animal_vault_writes() {
    let mut a = animal(1, 0);
    a.set_last_claim_block(GAME, &vec![], 890_000).unwrap();
    assert_eq!(word(&a.get_last_claim_block(&vec![]).data), 890_000);
    a.set_accumulated_taxes(GAME, &vec![], 1_234_567).unwrap();
    assert_eq!(word(&a.get_accumulated_taxes(&vec![]).data), 1_234_567);
    a.convert_to_fox(GAME, &vec![]).unwrap();
    assert_eq!(word(&a.get_role(&vec![]).data), 1);
    a.convert_to_fox(GAME, &vec![]).unwrap();
    assert_eq!(word(&a.get_role(&vec![]).data), 1);
    a.set_hunt_in_progress(GAME, &vec![], 1).unwrap();
    assert_eq!(word(&a.get_hunt_in_progress(&vec![]).data), 1);
    a.set_hunt_in_progress(GAME, &vec![], 0).unwrap();
    assert_eq!(word(&a.get_hunt_in_progress(&vec![]).data), 0);
    a.set_hunt_in_progress(GAME, &vec![], 999_999_999).unwrap();
    assert_eq!(word(&a.get_hunt_in_progress(&vec![]).data), 1);
    let r = a.mark_dead(GAME, &vec![AlkaneTransfer { id: OTHER, value: 3 }]).unwrap();
    assert_eq!(r.alkanes, vec![AlkaneTransfer { id: OTHER, value: 3 }]);
    assert_eq!(word(&a.get_is_dead(&vec![]).data), 1);
    assert_eq!(words(&a.get_all_details(&vec![]).data, 8)[6], 1);
}

#[test]
fn animal_refuses_other_writers() {
    let mut a = animal(1, 0);
    let before = a;
    assert_eq!(a.set_last_claim_block(OTHER, &vec![], 5).unwrap_err(), ReceiptError::NotVault);
    assert_eq!(a.set_accumulated_taxes(OTHER, &vec![], 5).unwrap_err(), ReceiptError::NotVault);
    assert_eq!(a.convert_to_fox(OTHER, &vec![]).unwrap_err(), ReceiptError::NotVault);
    assert_eq!(a.mark_dead(OTHER, &vec![]).unwrap_err(), ReceiptError::NotVault);
    assert_eq!(a.set_hunt_in_progress(OTHER, &vec![], 1).unwrap_err(), ReceiptError::NotVault);
    assert_eq!(a, before);
    let mut fresh = FoxkanesAnimal::new();
    assert_eq!(fresh.mark_dead(AlkaneId { block: 0, tx: 0 }, &vec![]).unwrap_err(), ReceiptError::NotInitialized);
}

#[test]
fn animal_name_and_symbol() {
    let a = animal(42, 1);
    let name = String::from_utf8(a.get_name(&vec![]).data).unwrap();
    assert!(name.contains("Fox"));
    assert!(name.contains("42"));
    assert_eq!(name, "Fox #42");
    assert_eq!(String::from_utf8(a.get_symbol(&vec![]).data).unwrap(), "FK-42");
    assert_eq!(String::from_utf8(animal(7, 0).get_name(&vec![]).data).unwrap(), "Farmer #7");
}

#[test]
fn decimal_digits() {
    assert_eq!(decimal(0), b"0".to_vec());
    assert_eq!(decimal(9), b"9".to_vec());
    assert_eq!(decimal(10), b"10".to_vec());
    assert_eq!(decimal(880_001), b"880001".to_vec());
    assert_eq!(decimal(u128::MAX), u128::MAX.to_string().into_bytes());
}

#[test]
fn commitment_initialize_mints_and_records() {
    let mut c = FoxkanesCommitment::new();
    let me = AlkaneId { block: 2, tx: 0x901 };
    let r = c.initialize(GAME, me, &vec![], 7, 4, 0x103, 880_100, 880_245, 1000, 42).unwrap();
    assert_eq!(r.alkanes, vec![AlkaneTransfer { id: me, value: 1 }]);
    assert_eq!(word(&c.get_commitment_id(&vec![]).data), 7);
    assert_eq!(word(&c.get_commit_block(&vec![]).data), 880_100);
    assert_eq!(word(&c.get_reveal_block(&vec![]).data), 880_245);
    assert_eq!(word(&c.get_weight(&vec![]).data), 1000);
    assert_eq!(word(&c.get_lottery_day_id(&vec![]).data), 42);
    assert_eq!(word(&c.get_consumed(&vec![]).data), 0);
    assert_eq!(words(&c.get_bond_nft_id(&vec![]).data, 2), vec![4, 0x103]);
    assert_eq!(words(&c.get_vault_id(&vec![]).data, 2), vec![4, 0x200]);
}

#[test]
fn commitment_initialize_refusals() {
    let me = AlkaneId { block: 2, tx: 0x901 };
    let mut c = FoxkanesCommitment::new();
    assert_eq!(c.initialize(GAME, me, &vec![], 1, 4, 9, 100, 245, 0, 0).unwrap_err(), ReceiptError::ZeroWeight);
    assert_eq!(c.initialize(GAME, me, &vec![], 1, 4, 9, 245, 245, 10, 0).unwrap_err(), ReceiptError::RevealNotAfterCommit);
    assert_eq!(c.initialize(GAME, me, &vec![], 1, 4, 9, 245, 100, 10, 0).unwrap_err(), ReceiptError::RevealNotAfterCommit);
    assert!(!c.initialized);
    c.initialize(GAME, me, &vec![], 1, 4, 9, 100, 245, 10, 0).unwrap();
    assert_eq!(c.initialize(GAME, me, &vec![], 1, 4, 9, 100, 245, 10, 0).unwrap_err(), ReceiptError::AlreadyInitialized);
}

#[test]
fn commitment_details_packing_and_consume() {
    let mut c = commitment(99);
    let r = c.get_all_details(&vec![]);
    assert_eq!(words(&r.data, 8), vec![99, 4, 0x103, 881_000, 881_145, 42_424_242, 7, 0]);
    let d = CommitmentDetails::parse(&r.data).unwrap();
    assert_eq!(d.bond_nft_tx, 0x103);
    assert_eq!(d.weight, 42_424_242);
    assert_eq!(c.mark_consumed(OTHER, &vec![]).unwrap_err(), ReceiptError::NotVault);
    assert_eq!(word(&c.get_consumed(&vec![]).data), 0);
    c.mark_consumed(GAME, &vec![]).unwrap();
    assert_eq!(word(&c.get_consumed(&vec![]).data), 1);
    assert_eq!(words(&c.get_all_details(&vec![]).data, 8)[7], 1);
}

#[test]
fn commitment_name_and_symbol() {
    let c = commitment(137);
    let name = String::from_utf8(c.get_name(&vec![]).data).unwrap();
    assert!(name.contains("Commitment"));
    assert!(name.contains("137"));
    assert_eq!(String::from_utf8(c.get_symbol(&vec![]).data).unwrap(), "FK-CMT-137");
}
