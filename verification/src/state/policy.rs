//! The distribution policy of a vault: fixed once it is set up.

use vstd::prelude::*;
use vstd::slice::slice_to_vec;
use crate::address::Address;
use crate::constants::POLICY_SEED;
use crate::utils::math::eligible_share_bps;
use crate::utils::pda::policy_seeds;

verus! {

/// What a caller supplies to set a policy up.
#[derive(Clone, Copy, Debug)]
pub struct PolicyParams {
    pub creator_wallet: Address,
    /// Investors' share of the fees in basis points, at most 10000.
    pub investor_fee_share_bps: u16,
    /// Most that may go to investors in one cycle; `None` for no cap.
    pub daily_cap_lamports: Option<u64>,
    /// Amounts below this are not paid but carried on as dust.
    pub min_payout_lamports: u64,
    /// The investors' total allocation at the reference time.
    pub y0_total_allocation: u64,
    /// Number of investors: bounds the pages of a cycle.
    pub total_investors: u32,
}

/// The policy record.
#[derive(Clone, Copy, Debug)]
pub struct Policy {
    /// The vault this policy applies to.
    pub vault: Address,
    /// Receives what investors do not.
    pub creator_wallet: Address,
    /// Investors' share of the fees in basis points.
    pub investor_fee_share_bps: u16,
    /// Most that may go to investors in one cycle; `None` for no cap.
    pub daily_cap_lamports: Option<u64>,
    /// Amounts below this are not paid but carried on as dust.
    pub min_payout_lamports: u64,
    /// The investors' total allocation at the reference time.
    pub y0_total_allocation: u64,
    /// Number of investors: bounds the pages of a cycle.
    pub total_investors: u32,
    /// Bump seed of the record's address.
    pub bump: u8,
    pub created_at: i64,
    pub updated_at: i64,
}

impl Policy {
    /// The seeds with which the record's address signs: the seeds of the
    /// policy of its vault and its bump seed.
    pub fn seeds(&self) -> (seeds: Vec<Vec<u8>>)
        ensures
            seeds.deep_view() == policy_seeds(self.vault).push(seq![self.bump]),
    {
        let mut seeds: Vec<Vec<u8>> = Vec::new();
        seeds.push(slice_to_vec(POLICY_SEED.as_slice()));
        seeds.push(slice_to_vec(self.vault.bytes.as_slice()));
        seeds.push(vec![self.bump]);
        assert(seeds.deep_view() =~~= policy_seeds(self.vault).push(seq![self.bump]));
        seeds
    }

    /// The share of a cycle's fees that goes to investors when
    /// `locked_total` is locked in all, in basis points.
    pub open spec fn eligible_bps(&self, locked_total: u64) -> int {
        eligible_share_bps(
            locked_total as int,
            self.y0_total_allocation as int,
            self.investor_fee_share_bps as int,
        )
    }

    /// Eligible investor share for the locked total, in basis points.
    pub fn calculate_eligible_investor_share(&self, locked_total: u64) -> (bps: u16)
        ensures
            bps == self.eligible_bps(locked_total),
            bps <= 10000,
            bps <= self.investor_fee_share_bps,
    {
        if self.y0_total_allocation == 0 {
            return 0;
        }
        assert(locked_total as int * 10000 <= u128::MAX) by (nonlinear_arith)
            requires
                locked_total <= u64::MAX,
        ;
        let product: u128 = (locked_total as u128) * 10000u128;
        let locked_fraction: u128 = product / (self.y0_total_allocation as u128);
        let locked_bps: u16 = if locked_fraction < 10000 {
            locked_fraction as u16
        } else {
            10000
        };
        if self.investor_fee_share_bps < locked_bps {
            self.investor_fee_share_bps
        } else {
            locked_bps
        }
    }
}

} // verus!
