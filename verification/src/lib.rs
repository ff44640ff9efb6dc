//! Fee routing for a single liquidity position: a paged, replay-safe
//! distribution of claimed fees to investors in proportion to what each
//! still has locked, with the remainder paid to the creator.
//!
//! The engine is `instructions::crank_distribution`: a step from the
//! progress record of a vault and the inputs of one call to the next record
//! and the transfers to make. What it guarantees of every call and of every
//! cycle is proved in `instructions::crank_guarantees` and
//! `instructions::cycle_guarantees`. The records are in `state`, the
//! arithmetic in `utils::math`, and what is taken from the vesting ledger
//! and from the liquidity venue in `integrations`.

pub mod address;
pub mod constants;
pub mod cp_amm_types;
pub mod error;
pub mod events;
pub mod instructions;
pub mod integrations;
pub mod state;
pub mod utils;
