//! Forever-fixed protocol constants: block durations, template ids,
//! outside AlkaneIds the protocol routes through, and the economic
//! parameters that feed the autonomous formulas in `support`.

use vstd::prelude::*;

verus! {

// ---------------------------------------------------------------------
// Block durations (one block is about ten minutes)
// ---------------------------------------------------------------------

/// Bitcoin halving interval.
pub const BITCOIN_HALVING: u64 = 210_000;
/// FIRE halving interval (half of the Bitcoin halving).
pub const HALVING_INTERVAL: u64 = BITCOIN_HALVING / 2;
/// One year in blocks.
pub const YEAR: u64 = HALVING_INTERVAL / 2;
/// Six months in blocks.
pub const SIX_MONTHS: u64 = HALVING_INTERVAL / 4;
/// Three months in blocks.
pub const THREE_MONTHS: u64 = HALVING_INTERVAL / 8;
/// One month in blocks.
pub const MONTH: u64 = HALVING_INTERVAL / 24;
/// One week in blocks.
pub const WEEK: u64 = HALVING_INTERVAL / 100;
/// One day in blocks.
pub const DAY: u64 = 144;

// ---------------------------------------------------------------------
// Template ids of the four contracts
// ---------------------------------------------------------------------

/// The game contract (factory and game loop).
pub const FOXKANES_GAME: u128 = 0x200;
/// The per-animal receipt template.
pub const FOXKANES_ANIMAL: u128 = 0x201;
/// The per-lottery-entry receipt template.
pub const FOXKANES_COMMITMENT: u128 = 0x202;
/// The peripheral router.
pub const FOXKANES_ZAP: u128 = 0x203;

/// The deploy target `(3, id)` of a template id.
pub fn deploy_target(id: u128) -> (r: (u128, u128))
    ensures
        r == (3u128, id),
{
    (3, id)
}

/// The live AlkaneId `(4, id)` of a template id once it is deployed.
pub fn deployed_id(id: u128) -> (r: (u128, u128))
    ensures
        r == (4u128, id),
{
    (4, id)
}

// FIRE contracts the protocol bonds into on the player's behalf.
pub const FIRE_TOKEN_BLOCK: u128 = 4;
pub const FIRE_TOKEN_TX: u128 = 0x100;
pub const FIRE_BONDING_BLOCK: u128 = 4;
pub const FIRE_BONDING_TX: u128 = 0x103;
pub const FIRE_REDEMPTION_BLOCK: u128 = 4;
pub const FIRE_REDEMPTION_TX: u128 = 0x104;
pub const FIRE_TREASURY_BLOCK: u128 = 4;
pub const FIRE_TREASURY_TX: u128 = 0x102;

// DIESEL and frBTC genesis alkanes.
pub const DIESEL_BLOCK: u128 = 2;
pub const DIESEL_TX: u128 = 0;
pub const FRBTC_BLOCK: u128 = 32;
pub const FRBTC_TX: u128 = 0;

// ---------------------------------------------------------------------
// Economic parameters
// ---------------------------------------------------------------------

/// Eight decimals, as FIRE and BTC.
pub const DECIMALS: u32 = 8;
pub const DECIMAL_FACTOR: u128 = 100_000_000;
/// Basis-point scale: 10_000 bps is 100%.
pub const BPS: u128 = 10_000;

/// Target equilibrium population; lifespans adjust to hold it.
pub const TARGET_POPULATION: u128 = 9_000;
/// Target fox share of the population, in bps (10%).
pub const TARGET_FOX_RATIO_BPS: u128 = 1_000;

/// Hard cap on daily lottery winners.
pub const HARDCODED_MAX_DAILY_MINTS: u128 = 100;
/// Lottery commit window in blocks (one day).
pub const LOTTERY_COMMIT_WINDOW: u64 = DAY;
/// Reveal delay in blocks past the commit close.
pub const REVEAL_DELAY: u64 = 1;
/// Reveal bounty multiplier (numerator and denominator).
pub const BOUNTY_MULTIPLIER_NUM: u128 = 1;
pub const BOUNTY_MULTIPLIER_DEN: u128 = 10_000;

/// Protocol fee on every mint, in bps (1%).
pub const PROTOCOL_FEE_BPS: u128 = 100;

/// Safe-claim tax at the target fox ratio, in bps (20%).
pub const BASE_TAX_BPS: u128 = 2_000;
/// Safe-claim tax floor, in bps (5%).
pub const MIN_TAX_BPS: u128 = 500;
/// Safe-claim tax ceiling, in bps (50%).
pub const MAX_TAX_BPS: u128 = 5_000;
/// Chance that a risky claim keeps everything, in bps (50%).
pub const RISKY_KEEP_PROBABILITY_BPS: u128 = 5_000;

/// Smallest hunting party.
pub const MIN_HUNT_PARTY: u128 = 5;
/// Largest hunting party.
pub const MAX_HUNT_PARTY: u128 = 10;
/// Per-hunter success chance against an empty fox, in bps (5%).
pub const HUNT_BASE_PROB_BPS: u128 = 500;
/// Extra per-hunter chance against a maximally ripe fox, in bps (+15%).
pub const HUNT_RIPE_BONUS_BPS: u128 = 1_500;
/// Aging of a failed hunter when no hunt has failed (one day).
pub const HUNT_BASE_AGING_BLOCKS: u64 = DAY;
/// Aging of a failed hunter when every hunt has failed (ten days).
pub const HUNT_MAX_AGING_BLOCKS: u64 = 10 * DAY;

/// Daily samples in the FIRE price TWAP.
pub const TWAP_WINDOW_DAYS: u128 = 7;

/// Yield units accrued per block by one staked animal.
pub const TEST_YIELD_PER_BLOCK_PER_STAKE: u128 = 1_000;
/// Salt mixed into the risky-claim seed.
pub const RISKY_CLAIM_SALT: u128 = 0xC0FFEE_FACE_FEEDu128;
/// Bounty paid to whoever expires an aged animal, in yield units.
pub const EXPIRE_BOUNTY_UNITS: u128 = 100;

/// 1e8 fixed-point scale.
pub const PRECISION_SMALL: u128 = 100_000_000;
/// 1e18 accumulator scale.
pub const PRECISION: u128 = 1_000_000_000_000_000_000;

} // verus!
