use foxkanes::codec::decode_word;
use foxkanes::types::{AlkaneId, AlkaneTransfer};
use foxkanes::zap::{FoxkanesZap, ZapError};

fn xfer(block: u128, tx: u128, value: u128) -> AlkaneTransfer {
    AlkaneTransfer { id: AlkaneId { block, tx }, value }
}

#[test]
fn zap_initialize() {
    let mut z = FoxkanesZap::new();
    assert_eq!(z.initialize(0, 0, 4, 0x103).unwrap_err(), ZapError::ZeroGameId);
    assert_eq!(z.initialize(4, 0x200, 0, 0).unwrap_err(), ZapError::ZeroFireBondingId);
    assert!(!z.initialized);
    z.initialize(4, 0x200, 4, 0x103).unwrap();
    assert_eq!(z.game_id(), AlkaneId { block: 4, tx: 0x200 });
    assert_eq!(z.fire_bonding_id(), AlkaneId { block: 4, tx: 0x103 });
    assert_eq!(z.initialize(4, 1, 4, 2).unwrap_err(), ZapError::AlreadyInitialized);
    let r = z.get_game_id(&vec![]);
    assert_eq!(decode_word(&r.data, 0), 4);
    assert_eq!(decode_word(&r.data, 1), 0x200);
    let r = z.get_fire_bonding_id(&vec![xfer(1, 1, 1)]);
    assert_eq!(decode_word(&r.data, 1), 0x103);
    assert_eq!(r.alkanes, vec![xfer(1, 1, 1)]);
}

#[test]
fn zap_flow() {
    let z0 = FoxkanesZap::new();
    assert_eq!(z0.plan_bond(&vec![xfer(2, 1, 5)]).unwrap_err(), ZapError::NotInitialized);
    let mut z = FoxkanesZap::new();
    z.initialize(4, 0x200, 4, 0x103).unwrap();
    assert_eq!(z.plan_bond(&vec![]).unwrap_err(), ZapError::NoLp);
    let lp = vec![xfer(2, 1, 5), xfer(2, 3, 8)];
    let (bond, parcel) = z.plan_bond(&lp).unwrap();
    assert_eq!(bond.target, AlkaneId { block: 4, tx: 0x103 });
    assert_eq!(bond.inputs, vec![1, 0]);
    assert_eq!(parcel, lp);
    assert_eq!(z.plan_enter(&vec![]).unwrap_err(), ZapError::NoBondNft);
    let bond_back = vec![xfer(4, 900, 1), xfer(32, 0, 7)];
    let (enter, parcel) = z.plan_enter(&bond_back).unwrap();
    assert_eq!(parcel, vec![xfer(4, 900, 1)]);
    assert_eq!(enter.target, AlkaneId { block: 4, tx: 0x200 });
    assert_eq!(enter.inputs, vec![1, 4, 900]);
    let resp = z.zap_response(&bond_back, &vec![xfer(2, 50, 1)]);
    assert_eq!(resp.alkanes, vec![xfer(4, 900, 1), xfer(2, 50, 1), xfer(32, 0, 7)]);
    assert!(resp.data.is_empty());
}

