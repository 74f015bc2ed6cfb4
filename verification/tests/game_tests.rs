use foxkanes::codec::{decode_word, encode_words, u128_to_le_bytes};
use foxkanes::game::{FoxkanesGame, GameError};
use foxkanes::support::{compute_tax_bps, role_is_fox};
use foxkanes::types::{AlkaneId, AlkaneTransfer, AnimalDetails, CommitmentDetails, DetailsError};

fn id(block: u128, tx: u128) -> AlkaneId {
    AlkaneId { block, tx }
}

fn xfer(block: u128, tx: u128, value: u128) -> AlkaneTransfer {
    AlkaneTransfer { id: id(block, tx), value }
}

fn word(data: &Vec<u8>) -> u128 {
    assert_eq!(data.len(), 16);
    decode_word(data, 0)
}

fn animal(role: u128, birth: u128, lifespan: u128, taxes: u128, last_claim: u128) -> AnimalDetails {
    AnimalDetails {
        animal_id: 1,
        role,
        birth_block: birth,
        lifespan,
        accumulated_taxes: taxes,
        last_claim_block: last_claim,
        is_dead: 0,
        hunt_in_progress: 0,
    }
}

fn initialized_game(genesis: u128) -> FoxkanesGame {
    let mut g = FoxkanesGame::new();
    g.initialize(0x201, 0x202, genesis).unwrap();
    g
}

#[test]
fn initialize_checks_and_is_one_shot() {
    let mut g = FoxkanesGame::new();
    assert_eq!(g.initialize(0, 5, 0).unwrap_err(), GameError::ZeroTemplate);
    assert_eq!(g.initialize(5, 0, 0).unwrap_err(), GameError::ZeroTemplate);
    assert_eq!(g.initialize(5, 5, 0).unwrap_err(), GameError::SameTemplates);
    assert!(!g.initialized);
    let resp = g.initialize(0x201, 0x202, 840_000).unwrap();
    assert!(resp.alkanes.is_empty() && resp.data.is_empty());
    assert_eq!(g.animal_template(), 0x201);
    assert_eq!(g.commitment_template(), 0x202);
    assert_eq!(g.genesis_block(), 840_000);
    assert_eq!(g.animal_seq(), 1);
    assert_eq!(g.commitment_seq(), 1);
    assert_eq!(g.initialize(0x301, 0x302, 1).unwrap_err(), GameError::AlreadyInitialized);
    assert_eq!(g.animal_template(), 0x201);
}

#[test]
fn initial_views() {
    let g = initialized_game(100);
    let incoming = vec![xfer(9, 9, 1)];
    let pop = g.get_population(&incoming);
    assert_eq!(pop.alkanes, incoming);
    assert_eq!(pop.data.len(), 32);
    assert_eq!(decode_word(&pop.data, 0), 0);
    assert_eq!(decode_word(&pop.data, 1), 0);
    assert_eq!(word(&g.get_current_tax_bps(&incoming).data), 2000);
    assert_eq!(word(&g.get_current_lifespan_blocks(&incoming).data), 12_960);
    assert_eq!(word(&g.get_last_day_mints(&incoming).data), 100);
    assert_eq!(word(&g.get_total_commitments(&incoming).data), 0);
    assert_eq!(word(&g.get_total_animals_minted(&incoming).data), 0);
    assert_eq!(word(&g.get_genesis_block(&incoming).data), 100);
    assert_eq!(word(&g.get_fox_pool(&incoming).data), 0);
    assert_eq!(word(&g.get_fox_pool_lifetime(&incoming).data), 0);
    assert_eq!(word(&g.get_total_hunts(&incoming).data), 0);
    assert_eq!(word(&g.get_recent_failed_hunts(&incoming).data), 0);
    assert_eq!(word(&g.get_recent_total_hunts(&incoming).data), 0);
    assert_eq!(word(&g.get_max_fox_unclaimed(&incoming).data), 0);
    assert_eq!(word(&g.get_total_expirations(&incoming).data), 0);
    assert_eq!(word(&g.get_animal_aging(4, 7, &incoming).data), 0);
    assert_eq!(word(&g.handle_is_registered_animal(4, 7, &incoming).data), 0);
    assert_eq!(word(&g.handle_is_registered_commitment(4, 7, &incoming).data), 0);
    let hunt = g.get_hunt(3, &incoming);
    assert_eq!(hunt.data.len(), 96);
    for i in 0..6 {
        assert_eq!(decode_word(&hunt.data, i), 0);
    }
    let d = animal(0, 0, 0, 0, 0);
    assert_eq!(word(&g.preview_yield(500, &id(4, 7), &d, &incoming).data), 0);
    assert_eq!(word(&g.get_expire_block(4, 7, &d, &incoming).data), 0);
}

#[test]
fn day_ids_and_seed() {
    let g = initialized_game(1000);
    assert_eq!(g.current_day_id(999), 0);
    assert_eq!(g.current_day_id(1000), 0);
    assert_eq!(g.current_day_id(1143), 0);
    assert_eq!(g.current_day_id(1144), 1);
    assert_eq!(g.current_day_id(1000 + 144 * 10), 10);
    // the seed is the documented mix
    let h: u128 = 1234;
    let a = h.wrapping_mul(0x9E3779B97F4A7C15_9E3779B97F4A7C15);
    let b = 7u128.wrapping_mul(0xBF58476D1CE4E5B9_BF58476D1CE4E5B9);
    let c = 3u128.wrapping_mul(0x94D049BB133111EB_94D049BB133111EB);
    let expected = (a ^ b ^ c).rotate_left(31).wrapping_mul(0x2545F4914F6CDD1D_2545F4914F6CDD1D);
    assert_eq!(g.derive_seed(1234, 7, 3), expected);
    assert_eq!(g.compute_yield_units(200, 100), 100_000);
    assert_eq!(g.compute_yield_units(100, 100), 0);
    assert_eq!(g.compute_yield_units(50, 100), 0);
}

#[test]
fn enter_lottery_and_reveal_win() {
    let mut g = initialized_game(1000);
    // zero LP gives zero weight
    assert_eq!(g.plan_enter_lottery(1000, &vec![xfer(2, 1, 0)], 4, 9).unwrap_err(), GameError::ZeroWeight);
    let incoming = vec![xfer(2, 1, 100)];
    let entry = g.plan_enter_lottery(1010, &incoming, 4, 9).unwrap();
    assert_eq!(entry.weight, 10);
    assert_eq!(entry.day_id, 0);
    assert_eq!(entry.commitment_id, 1);
    assert_eq!(entry.create.target, id(6, 0x202));
    assert_eq!(entry.create.inputs, vec![0, 1, 4, 9, 1010, 1010 + 145, 10, 0]);
    // the factory returned nothing: refused, nothing changes
    assert_eq!(g.apply_enter_lottery(&entry, &vec![]).unwrap_err(), GameError::NoCommitmentCreated);
    assert_eq!(g.commitment_seq(), 1);
    let receipt = xfer(2, 50, 1);
    let resp = g.apply_enter_lottery(&entry, &vec![receipt]).unwrap();
    assert_eq!(resp.alkanes, vec![receipt]);
    assert_eq!(g.commitment_seq(), 2);
    assert_eq!(g.day_weight(0), 10);
    assert!(g.is_registered_commitment(&id(2, 50)));
    assert_eq!(word(&g.get_total_commitments(&vec![]).data), 1);
    assert_eq!(word(&g.get_current_day_weight(1010, &vec![]).data), 10);
    let latest = g.get_latest_commitment_id(&vec![]);
    assert_eq!(decode_word(&latest.data, 0), 2);
    assert_eq!(decode_word(&latest.data, 1), 50);

    // reveal: the receipt must be presented
    assert_eq!(g.find_registered_commitment(&vec![xfer(2, 51, 1)]).unwrap_err(), GameError::NoCommitmentPresented);
    assert_eq!(g.find_registered_commitment(&vec![xfer(2, 50, 0)]).unwrap_err(), GameError::NoCommitmentPresented);
    let cmt = g.find_registered_commitment(&vec![xfer(7, 7, 3), receipt]).unwrap();
    assert_eq!(cmt, id(2, 50));
    let words = vec![1u128, 4, 9, 1010, 1155, 10, 0, 0];
    let details = CommitmentDetails::parse(&encode_words(&words)).unwrap();
    assert_eq!(details.reveal_block, 1155);
    assert_eq!(
        g.plan_reveal(1154, cmt, &details).unwrap_err(),
        GameError::RevealTooEarly { height: 1154, reveal_block: 1155 }
    );
    let consumed = CommitmentDetails { consumed: 1, ..details };
    assert_eq!(g.plan_reveal(1200, cmt, &consumed).unwrap_err(), GameError::CommitmentConsumed);
    // the only commitment of the day always wins: 100 mints x weight covers the total
    let plan = g.plan_reveal(1155, cmt, &details).unwrap();
    assert!(plan.won);
    assert_eq!(plan.consume.target, cmt);
    assert_eq!(plan.consume.inputs, vec![1]);
    let seed = g.derive_seed(1155, 1, 0);
    let role = if role_is_fox(seed) { 1 } else { 0 };
    assert_eq!(plan.role, role);
    let create = plan.create.as_ref().unwrap();
    assert_eq!(create.target, id(6, 0x201));
    assert_eq!(create.inputs, vec![0, 1, role, 1155, 12_960]);
    assert_eq!(g.apply_reveal(&plan, &vec![]).unwrap_err(), GameError::NoAnimalCreated);
    let nft = xfer(2, 60, 1);
    let resp = g.apply_reveal(&plan, &vec![nft]).unwrap();
    assert_eq!(resp.alkanes, vec![nft]);
    assert!(g.is_registered_animal(&id(2, 60)));
    assert_eq!(g.animal_seq(), 2);
    assert_eq!(g.fox_count() + g.farmer_count(), 1);
    assert_eq!(g.fox_count(), role);
    assert_eq!(g.day_mints(0), 1);
    assert_eq!(word(&g.get_total_animals_minted(&vec![]).data), 1);
    let latest = g.get_latest_animal_id(&vec![]);
    assert_eq!(decode_word(&latest.data, 1), 60);
}

#[test]
fn reveal_loss_refunds_bond() {
    let mut g = initialized_game(0);
    g.register_commitment(&id(2, 50));
    // total weight of the day is huge, the entry is light: find a losing seed
    g.day_weight.set(0, 1_000_000_000);
    let mut lost = false;
    for h in 200u64..400 {
        let details = CommitmentDetails {
            commitment_id: 1,
            bond_nft_block: 4,
            bond_nft_tx: 9,
            commit_block: 0,
            reveal_block: 145,
            weight: 1,
            lottery_day_id: 0,
            consumed: 0,
        };
        let plan = g.plan_reveal(h, id(2, 50), &details).unwrap();
        if !plan.won {
            assert!(plan.create.is_none());
            let resp = g.apply_reveal(&plan, &vec![]).unwrap();
            assert_eq!(plan.refund, xfer(4, 9, 1));
            assert_eq!(resp.alkanes, vec![xfer(4, 9, 1)]);
            assert_eq!(g.fox_count() + g.farmer_count(), 0);
            lost = true;
            break;
        }
    }
    assert!(lost);
}

#[test]
fn full_day_mints_no_more() {
    let mut g = initialized_game(0);
    g.register_commitment(&id(2, 50));
    g.day_weight.set(0, 10);
    let details = CommitmentDetails {
        commitment_id: 1,
        bond_nft_block: 4,
        bond_nft_tx: 9,
        commit_block: 0,
        reveal_block: 145,
        weight: 10,
        lottery_day_id: 0,
        consumed: 0,
    };
    // one below the cap: the sole entry of the day wins and fills the day
    g.day_mints.set(0, 99);
    let plan = g.plan_reveal(145, id(2, 50), &details).unwrap();
    assert!(plan.won);
    g.apply_reveal(&plan, &vec![xfer(2, 60, 1)]).unwrap();
    assert_eq!(g.day_mints(0), 100);
    assert_eq!(g.fox_count() + g.farmer_count(), 1);
    // at the cap: the same winning draw mints nothing and refunds the bond
    let plan = g.plan_reveal(146, id(2, 50), &details).unwrap();
    assert!(!plan.won);
    assert!(plan.create.is_none());
    let resp = g.apply_reveal(&plan, &vec![]).unwrap();
    assert_eq!(resp.alkanes, vec![xfer(4, 9, 1)]);
    assert_eq!(g.day_mints(0), 100);
    assert_eq!(g.fox_count() + g.farmer_count(), 1);
    assert_eq!(g.animal_seq(), 2);
}

#[test]
fn details_parse_short_data() {
    let short = vec![0u8; 127];
    assert_eq!(AnimalDetails::parse(&short).unwrap_err(), DetailsError::TooShort { len: 127 });
    assert_eq!(CommitmentDetails::parse(&vec![]).unwrap_err(), DetailsError::TooShort { len: 0 });
    let words = vec![9u128, 1, 100, 12_960, 77, 150, 0, 1];
    let d = AnimalDetails::parse(&encode_words(&words)).unwrap();
    assert_eq!(d, AnimalDetails {
        animal_id: 9,
        role: 1,
        birth_block: 100,
        lifespan: 12_960,
        accumulated_taxes: 77,
        last_claim_block: 150,
        is_dead: 0,
        hunt_in_progress: 1,
    });
}

#[test]
fn codec_roundtrip() {
    for v in [0u128, 1, 255, 256, 0xdead_beef, u128::MAX, 1u128 << 127] {
        let b = u128_to_le_bytes(v);
        assert_eq!(b, v.to_le_bytes().to_vec());
        assert_eq!(decode_word(&b, 0), v);
    }
    let vals = vec![3u128, u128::MAX, 0, 42];
    let enc = encode_words(&vals);
    assert_eq!(enc.len(), 64);
    for i in 0..4 {
        assert_eq!(decode_word(&enc, i), vals[i]);
    }
}

fn staked_game() -> (FoxkanesGame, AlkaneId, AlkaneId) {
    let mut g = initialized_game(0);
    let farmer = id(2, 100);
    let fox = id(2, 101);
    g.register_animal(&farmer);
    g.register_animal(&fox);
    g.farmer_count = 9;
    g.fox_count = 1;
    (g, farmer, fox)
}

#[test]
fn stake_and_safe_claims() {
    let (mut g, farmer, fox) = staked_game();
    let farmer_in = vec![xfer(2, 100, 1)];
    let fox_in = vec![xfer(2, 101, 1)];
    // nothing registered presented
    assert_eq!(g.stake(10, &vec![xfer(1, 1, 1)], &animal(0, 0, 0, 0, 0)).unwrap_err(), GameError::NoAnimalPresented);
    let dead = AnimalDetails { is_dead: 1, ..animal(0, 0, 0, 0, 0) };
    assert_eq!(g.stake(10, &farmer_in, &dead).unwrap_err(), GameError::AnimalDead);
    // claiming needs a staked animal
    assert_eq!(g.claim_safe(10, &farmer_in, &animal(0, 0, 0, 0, 0)).unwrap_err(), GameError::AnimalNotStaked);

    let eff = g.stake(10, &farmer_in, &animal(0, 0, 0, 0, 0)).unwrap();
    assert_eq!(eff.calls.len(), 1);
    assert_eq!(eff.calls[0].target, farmer);
    assert_eq!(eff.calls[0].inputs, vec![1, 10]);
    assert_eq!(eff.response.alkanes, farmer_in);
    assert!(g.is_staked(&farmer));
    assert_eq!(g.staked_farmer_count(), 1);
    assert_eq!(g.stake(11, &farmer_in, &animal(0, 0, 0, 0, 0)).unwrap_err(), GameError::AnimalAlreadyStaked);

    g.stake(10, &fox_in, &animal(1, 0, 0, 0, 0)).unwrap();
    assert_eq!(g.staked_fox_count(), 1);
    assert_eq!(g.fox_acc_checkpoint(&fox), 0);

    // farmer claims 100 blocks of yield at the homeostatic tax
    let eff = g.claim_safe(110, &farmer_in, &animal(0, 0, 0, 0, 10)).unwrap();
    let y = 100_000u128;
    let bps = compute_tax_bps(1, 9);
    assert_eq!(bps, 2000);
    let tax = y * bps / 10_000;
    assert_eq!(word(&eff.response.data), y - tax);
    assert_eq!(eff.calls[0].inputs, vec![1, 110]);
    assert_eq!(g.fox_pool_balance(), tax);
    assert_eq!(g.fox_pool_lifetime(), tax);
    assert_eq!(g.tax_per_fox_acc(), tax * 1_000_000_000_000_000_000);

    // fox claims its direct yield plus the whole pool (the only staked fox)
    let eff = g.claim_safe(110, &fox_in, &animal(1, 0, 0, 0, 10)).unwrap();
    assert_eq!(word(&eff.response.data), y + tax);
    assert_eq!(g.fox_pool_balance(), 0);
    assert_eq!(g.fox_pool_lifetime(), tax);
    // a second claim finds no pool share left
    let eff = g.claim_safe(110, &fox_in, &animal(1, 0, 0, 0, 110)).unwrap();
    assert_eq!(word(&eff.response.data), 0);
}

#[test]
fn pool_split_between_two_foxes() {
    let mut g = initialized_game(0);
    g.staked_fox_count = 2;
    g.distribute_tax_to_foxes(1001);
    assert_eq!(g.tax_per_fox_acc(), 1001 * 1_000_000_000_000_000_000 / 2);
    let a = g.fox_claim_share(&id(5, 1));
    let b = g.fox_claim_share(&id(5, 2));
    assert_eq!(a, 500);
    assert_eq!(b, 500);
    assert!(a + b <= 1001);
    assert_eq!(g.fox_pool_balance(), 1);
    // no staked fox: the pool grows but the accumulator stays
    let mut g = initialized_game(0);
    g.distribute_tax_to_foxes(50);
    assert_eq!(g.tax_per_fox_acc(), 0);
    assert_eq!(g.fox_pool_balance(), 50);
    g.distribute_tax_to_foxes(0);
    assert_eq!(g.fox_pool_lifetime(), 50);
    assert_eq!(g.farmer_tax_owed(1000), 0 + 1000 * 2000 / 10_000);
}

#[test]
fn risky_claims_all_or_nothing() {
    let (mut g, farmer, _fox) = staked_game();
    let farmer_in = vec![xfer(2, 100, 1)];
    g.stake(10, &farmer_in, &animal(0, 0, 0, 0, 0)).unwrap();
    let mut kept = false;
    let mut lost = false;
    for h in 20u64..200 {
        let before_pool = g.fox_pool_lifetime();
        let d = animal(0, 0, 0, 0, h as u128 - 10);
        let eff = g.claim_risky(h, &farmer_in, &d).unwrap();
        let payout = word(&eff.response.data);
        assert_eq!(eff.calls[0].target, farmer);
        if payout == 10_000 {
            kept = true;
            assert_eq!(g.fox_pool_lifetime(), before_pool);
        } else {
            assert_eq!(payout, 0);
            assert_eq!(g.fox_pool_lifetime(), before_pool + 10_000);
            lost = true;
        }
    }
    assert!(kept && lost);
}

fn hunt_game() -> (FoxkanesGame, AlkaneId, Vec<AlkaneTransfer>) {
    let mut g = initialized_game(0);
    let target = id(3, 1);
    g.register_animal(&target);
    g.animal_staked.set(&target, 1);
    let mut party = Vec::new();
    for i in 0..6u128 {
        let m = id(3, 10 + i);
        g.register_animal(&m);
        g.animal_staked.set(&m, 1);
        party.push(xfer(3, 10 + i, 1));
    }
    g.fox_count = 1;
    g.farmer_count = 6;
    g.staked_fox_count = 1;
    g.staked_farmer_count = 6;
    (g, target, party)
}

fn farmer_details() -> AnimalDetails {
    animal(0, 0, 12_960, 10, 0)
}

#[test]
fn initiate_hunt_refusals() {
    let (mut g, target, party) = hunt_game();
    let five: Vec<AlkaneTransfer> = party[0..5].to_vec();
    let ds = vec![farmer_details(); 5];
    let fox = animal(1, 0, 12_960, 500, 0);
    assert_eq!(g.initiate_hunt(50, id(9, 9), &fox, &five, &ds).unwrap_err(), GameError::TargetNotRegistered);
    assert_eq!(
        g.initiate_hunt(50, target, &AnimalDetails { is_dead: 1, ..fox }, &five, &ds).unwrap_err(),
        GameError::TargetDead
    );
    assert_eq!(g.initiate_hunt(50, target, &farmer_details(), &five, &ds).unwrap_err(), GameError::TargetNotFox);
    assert_eq!(
        g.initiate_hunt(50, target, &AnimalDetails { hunt_in_progress: 1, ..fox }, &five, &ds).unwrap_err(),
        GameError::TargetInHunt
    );
    let mut bad = ds.clone();
    bad[2] = animal(1, 0, 0, 0, 0);
    assert_eq!(g.initiate_hunt(50, target, &fox, &five, &bad).unwrap_err(), GameError::MemberNotLiveFarmer);
    let mut busy = ds.clone();
    busy[4] = AnimalDetails { hunt_in_progress: 1, ..farmer_details() };
    assert_eq!(g.initiate_hunt(50, target, &fox, &five, &busy).unwrap_err(), GameError::MemberInHunt);
    let four: Vec<AlkaneTransfer> = party[0..4].to_vec();
    assert_eq!(
        g.initiate_hunt(50, target, &fox, &four, &vec![farmer_details(); 4]).unwrap_err(),
        GameError::PartyTooSmall { size: 4 }
    );
    // unregistered or empty transfers are not party members
    let mut with_noise = five.clone();
    with_noise.push(xfer(8, 8, 1));
    with_noise.push(xfer(3, 15, 0));
    assert_eq!(g.hunt_party_candidates(&with_noise).len(), 5);
    // an unstaked member
    let loner = id(3, 99);
    g.register_animal(&loner);
    let mut with_loner = party[0..4].to_vec();
    with_loner.push(xfer(3, 99, 1));
    assert_eq!(g.initiate_hunt(50, target, &fox, &with_loner, &ds).unwrap_err(), GameError::MemberNotStaked);
    // an unstaked target
    g.animal_staked.set(&target, 0);
    assert_eq!(g.initiate_hunt(50, target, &fox, &five, &ds).unwrap_err(), GameError::TargetNotStaked);
    assert_eq!(word(&g.get_total_hunts(&vec![]).data), 0);
}

#[test]
fn party_too_large() {
    let (mut g, target, mut party) = hunt_game();
    for i in 0..5u128 {
        let m = id(4, i);
        g.register_animal(&m);
        g.animal_staked.set(&m, 1);
        party.push(xfer(4, i, 1));
    }
    let ds = vec![farmer_details(); 11];
    let fox = animal(1, 0, 12_960, 500, 0);
    assert_eq!(g.initiate_hunt(50, target, &fox, &party, &ds).unwrap_err(), GameError::PartyTooLarge { size: 11 });
}

#[test]
fn hunt_lifecycle() {
    let mut outcomes = (false, false);
    for h in 50u64..120 {
        let (mut g, target, party) = hunt_game();
        let five: Vec<AlkaneTransfer> = party[0..5].to_vec();
        let ds = vec![farmer_details(); 5];
        let fox = animal(1, 0, 12_960, 500, 0);
        let eff = g.initiate_hunt(h, target, &fox, &five, &ds).unwrap();
        assert_eq!(word(&eff.response.data), 1);
        assert_eq!(eff.calls.len(), 6);
        assert_eq!(eff.calls[0].target, target);
        assert_eq!(eff.calls[0].inputs, vec![5, 1]);
        assert_eq!(eff.response.alkanes, five);
        assert_eq!(g.max_fox_unclaimed, 500);
        assert_eq!(word(&g.get_total_hunts(&vec![]).data), 1);
        let hunt = g.get_hunt(1, &vec![]);
        assert_eq!(decode_word(&hunt.data, 1), 1);
        assert_eq!(decode_word(&hunt.data, 2), 5);
        assert_eq!(decode_word(&hunt.data, 3), h as u128);
        assert_eq!(decode_word(&hunt.data, 4), 0);

        let (t, members) = g.hunt_participants(1).unwrap();
        assert_eq!(t, target);
        assert_eq!(members.len(), 5);
        assert_eq!(g.hunt_participants(2).unwrap_err(), GameError::UnknownHunt);
        let eff = g.resolve_hunt(h, 1, &fox, &ds).unwrap();
        let success = word(&eff.response.data);
        assert!(eff.response.alkanes.is_empty());
        if success == 1 {
            outcomes.0 = true;
            assert_eq!(g.fox_count(), 1);
            assert_eq!(g.farmer_count(), 5);
            assert_eq!(g.staked_fox_count(), 1);
            assert_eq!(g.staked_farmer_count(), 5);
            // five members get 100 each, then the target dies and a member converts
            assert_eq!(eff.calls.len(), 14);
            assert_eq!(eff.calls[0].inputs, vec![2, 110]);
            assert_eq!(eff.calls[10].inputs, vec![4]);
            assert_eq!(eff.calls[13].inputs, vec![3]);
        } else {
            outcomes.1 = true;
            assert_eq!(success, 0);
            assert_eq!(g.farmer_count(), 6);
            assert_eq!(eff.calls.len(), 6);
            // first failure: no failed hunts yet, one hunt in total -> one day of aging
            assert_eq!(word(&g.get_animal_aging(3, 10, &vec![]).data), 144);
            assert_eq!(word(&g.get_recent_failed_hunts(&vec![]).data), 1);
        }
        assert_eq!(g.resolve_hunt(h, 1, &fox, &ds).unwrap_err(), GameError::HuntAlreadyResolved);
        assert_eq!(g.hunt_participants(1).unwrap_err(), GameError::HuntAlreadyResolved);
        assert_eq!(decode_word(&g.get_hunt(1, &vec![]).data, 4), 1);
        if outcomes.0 && outcomes.1 {
            break;
        }
    }
    assert!(outcomes.0 && outcomes.1);
}

#[test]
fn repeated_member_builds_on_its_share() {
    // the same animal twice in a party: its second share adds to the first
    for h in 50u64..400 {
        let (mut g, target, party) = hunt_game();
        let mut five: Vec<AlkaneTransfer> = party[0..4].to_vec();
        five.push(party[0]);
        let ds = vec![farmer_details(); 5];
        let fox = animal(1, 0, 12_960, 500, 0);
        g.initiate_hunt(h, target, &fox, &five, &ds).unwrap();
        let eff = g.resolve_hunt(h, 1, &fox, &ds).unwrap();
        if word(&eff.response.data) == 1 {
            assert_eq!(eff.calls[0].inputs, vec![2, 110]);
            assert_eq!(eff.calls[8].target, party[0].id);
            assert_eq!(eff.calls[8].inputs, vec![2, 210]);
            return;
        }
    }
    panic!("no successful hunt in range");
}

#[test]
fn expire_rules() {
    let mut g = initialized_game(0);
    let a = id(2, 77);
    let d = animal(0, 100, 1000, 0, 0);
    assert_eq!(g.expire(2000, a, &d).unwrap_err(), GameError::AnimalNotRegistered);
    g.register_animal(&a);
    g.farmer_count = 3;
    g.staked_farmer_count = 1;
    g.animal_staked.set(&a, 1);
    assert_eq!(g.expire(2000, a, &AnimalDetails { is_dead: 1, ..d }).unwrap_err(), GameError::AnimalAlreadyDead);
    assert_eq!(g.expire(2000, a, &AnimalDetails { hunt_in_progress: 1, ..d }).unwrap_err(), GameError::AnimalInHunt);
    assert_eq!(g.expire(1099, a, &d).unwrap_err(), GameError::ExpireTooEarly { height: 1099, effective_end: 1100 });
    assert_eq!(word(&g.get_expire_block(2, 77, &d, &vec![]).data), 1100);
    // failed hunts age the animal and bring the end forward
    g.animal_aging.set(&a, 144);
    assert_eq!(word(&g.get_expire_block(2, 77, &d, &vec![]).data), 956);
    let eff = g.expire(956, a, &d).unwrap();
    assert_eq!(word(&eff.response.data), 100);
    assert_eq!(eff.calls[0].target, a);
    assert_eq!(eff.calls[0].inputs, vec![4]);
    assert_eq!(g.farmer_count(), 2);
    assert_eq!(g.staked_farmer_count(), 1 - 1);
    assert_eq!(word(&g.get_total_expirations(&vec![]).data), 1);
}

#[test]
fn preview_yield_of_registered_animal() {
    let mut g = initialized_game(0);
    g.register_animal(&id(2, 5));
    let d = animal(0, 0, 0, 0, 40);
    assert_eq!(word(&g.preview_yield(50, &id(2, 5), &d, &vec![]).data), 10_000);
    assert_eq!(word(&g.handle_is_registered_animal(2, 5, &vec![]).data), 1);
}

#[test]
fn fresh_fox_earns_only_later_taxes() {
    let (mut g, _farmer, _fox) = staked_game();
    // tax paid while a first fox is staked
    let first_in = vec![xfer(2, 101, 1)];
    g.stake(10, &first_in, &animal(1, 0, 0, 0, 0)).unwrap();
    g.distribute_tax_to_foxes(5000);
    // a second fox stakes afterwards and has nothing to claim yet
    let late = id(2, 102);
    g.register_animal(&late);
    let late_in = vec![xfer(2, 102, 1)];
    g.stake(20, &late_in, &animal(1, 0, 0, 0, 0)).unwrap();
    let eff = g.claim_safe(20, &late_in, &animal(1, 0, 0, 0, 20)).unwrap();
    assert_eq!(word(&eff.response.data), 0);
    // the first fox still has the whole earlier tax
    let eff = g.claim_safe(20, &first_in, &animal(1, 0, 0, 0, 20)).unwrap();
    assert_eq!(word(&eff.response.data), 5000);
}

#[test]
fn day_id_never_goes_back() {
    let g = initialized_game(500);
    let mut prev = 0;
    for h in 0u64..2000 {
        let d = g.current_day_id(h);
        assert!(d >= prev);
        prev = d;
    }
}
