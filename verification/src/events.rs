//! What the router reports at the boundaries of a page and of a cycle.

use vstd::prelude::*;
use crate::address::Address;

verus! {

/// An honorary position was created for a vault.
#[derive(Clone, Copy, Debug, PartialEq, Eq)]
pub struct HonoraryPositionInitialized {
    pub vault: Address,
    pub pool: Address,
    pub position: Address,
    pub quote_mint: Address,
    pub position_owner: Address,
    pub timestamp: i64,
}

/// A policy was set up for a vault.
#[derive(Clone, Copy, Debug, PartialEq, Eq)]
pub struct PolicySetup {
    pub vault: Address,
    pub creator_wallet: Address,
    pub investor_fee_share_bps: u16,
    pub y0_total_allocation: u64,
    pub timestamp: i64,
}

/// Fees were claimed at the start of a cycle.
#[derive(Clone, Copy, Debug, PartialEq, Eq)]
pub struct QuoteFeesClaimed {
    pub vault: Address,
    pub amount: u64,
    pub timestamp: i64,
}

/// A page was applied.
#[derive(Clone, Copy, Debug, PartialEq, Eq)]
pub struct InvestorPayoutPage {
    pub vault: Address,
    pub page_start: u32,
    pub page_size: u32,
    /// Investors that the page paid.
    pub investors_paid: u32,
    /// Sum of the page's payouts.
    pub total_paid: u64,
    /// Dust that the cycle carries on after the page.
    pub dust_carried: u64,
    pub timestamp: i64,
}

/// A cycle was closed.
#[derive(Clone, Copy, Debug, PartialEq, Eq)]
pub struct CreatorPayoutDayClosed {
    pub vault: Address,
    pub creator_amount: u64,
    /// Paid to investors in the cycle.
    pub total_distributed: u64,
    pub timestamp: i64,
}

} // verus!
