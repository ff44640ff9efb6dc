//! The persistent records: the policy, the progress of a cycle and the
//! owner of the position.

pub mod policy;
pub mod position_owner;
pub mod progress;
