//! What the router takes from the vesting ledger and from the liquidity
//! venue, as plain values.

pub mod cp_amm;
pub mod streamflow;
