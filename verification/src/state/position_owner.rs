//! The record of the address that owns the honorary position of a vault.

use vstd::prelude::*;
use vstd::slice::slice_to_vec;
use crate::address::Address;
use crate::constants::INVESTOR_FEE_POS_OWNER_SEED;
use crate::constants::VAULT_SEED;
use crate::error::HonouraryError;
use crate::utils::pda::position_owner_seeds;

verus! {

/// The position owner record.
#[derive(Clone, Copy, Debug)]
pub struct InvestorFeePositionOwner {
    /// The vault this position is associated with.
    pub vault: Address,
    /// The pool this position belongs to.
    pub pool: Address,
    /// The mint of the position's token.
    pub position_mint: Address,
    /// The quote mint: the only token fees are collected in.
    pub quote_mint: Address,
    /// The position account in the pool's program.
    pub position_account: Address,
    /// Bump seed of the record's address.
    pub bump: u8,
    pub created_at: i64,
    /// Fees claimed to date.
    pub total_fees_claimed: u64,
}

impl InvestorFeePositionOwner {
    /// The seeds with which the record's address signs: the seeds of the
    /// position owner of its vault and its bump seed.
    pub fn seeds(&self) -> (seeds: Vec<Vec<u8>>)
        ensures
            seeds.deep_view() == position_owner_seeds(self.vault).push(seq![self.bump]),
    {
        let mut seeds: Vec<Vec<u8>> = Vec::new();
        seeds.push(slice_to_vec(VAULT_SEED.as_slice()));
        seeds.push(slice_to_vec(self.vault.bytes.as_slice()));
        seeds.push(slice_to_vec(INVESTOR_FEE_POS_OWNER_SEED.as_slice()));
        seeds.push(vec![self.bump]);
        assert(seeds.deep_view() =~~= position_owner_seeds(self.vault).push(seq![self.bump]));
        seeds
    }

    /// Adds a claim to the fees claimed to date. `MathOverflow` exactly when
    /// the sum does not fit 64 bits; the record is then unchanged.
    pub fn record_claim(&mut self, claimed: u64) -> (result: Result<(), HonouraryError>)
        ensures
            old(self).total_fees_claimed + claimed > u64::MAX ==> result == Err::<
                (),
                HonouraryError,
            >(HonouraryError::MathOverflow) && *final(self) == *old(self),
            old(self).total_fees_claimed + claimed <= u64::MAX ==> result is Ok && *final(self)
                == (InvestorFeePositionOwner {
                total_fees_claimed: (old(self).total_fees_claimed + claimed) as u64,
                ..*old(self)
            }),
    {
        if claimed > u64::MAX - self.total_fees_claimed {
            return Err(HonouraryError::MathOverflow);
        }
        self.total_fees_claimed = self.total_fees_claimed + claimed;
        Ok(())
    }
}

} // verus!
