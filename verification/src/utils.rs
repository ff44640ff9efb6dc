//! Arithmetic, address derivation and pool checks.

pub mod math;
pub mod pda;
pub mod shares;
pub mod validation;
