//! The operations of the router, each as a step from records and inputs to
//! records, payouts and events.

pub mod add_honorary_liquidity;
pub mod crank_distribution;
pub mod crank_guarantees;
pub mod cycle_guarantees;
pub mod initialize_position;
pub mod page_account;
pub mod setup_policy;
