//! Foxkanes: a predator/prey game protocol on alkanes whose parameters are
//! all either fixed forever or computed from on-chain state.
//!
//! - `constants`: forever-fixed values (durations, template ids, economics).
//! - `support`: the autonomous-parameter formulas and their laws.
//! - `game` and `game_*`: the game contract's storage and handlers.
//! - `zap`: the router that bonds LP and enters the lottery.
//! - `receipts`: the animal and commitment receipt contracts.
//! - `types`, `codec`, `store`, `arith`: the values, wire format, storage
//!   cells and saturating arithmetic these share.

pub mod arith;
pub mod codec;
pub mod constants;
pub mod game;
pub mod game_claims;
pub mod game_hunts;
pub mod game_laws;
pub mod game_lottery;
pub mod game_views;
pub mod receipts;
pub mod store;
pub mod support;
pub mod types;
pub mod zap;
