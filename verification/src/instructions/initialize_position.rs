//! Setting up the honorary position of a vault.

use vstd::prelude::*;
use crate::address::Address;
use crate::cp_amm_types::Pool;
use crate::error::HonouraryError;
use crate::events::HonoraryPositionInitialized;
use crate::state::position_owner::InvestorFeePositionOwner;
use crate::utils::validation::preflight_position_validation;
use crate::utils::validation::quote_only_check;

verus! {

/// The addresses that take part in setting a position up.
#[derive(Clone, Copy, Debug)]
pub struct PositionAddresses {
    pub vault: Address,
    pub pool: Address,
    /// The mint of the position's token.
    pub position_mint: Address,
    pub quote_mint: Address,
    /// The position account in the pool's program.
    pub position: Address,
    /// The derived address that owns the position.
    pub position_owner: Address,
}

/// What setting a position up yields: the record of its owner and the
/// report. The position itself is then to be created in the pool.
#[derive(Clone, Copy, Debug)]
pub struct InitializedPosition {
    pub owner: InvestorFeePositionOwner,
    pub event: HonoraryPositionInitialized,
}

/// The owner record of a new position.
pub open spec fn new_position_owner(addresses: PositionAddresses, bump: u8, now: i64) -> InvestorFeePositionOwner {
    InvestorFeePositionOwner {
        vault: addresses.vault,
        pool: addresses.pool,
        position_mint: addresses.position_mint,
        quote_mint: addresses.quote_mint,
        position_account: addresses.position,
        bump: bump,
        created_at: now,
        total_fees_claimed: 0,
    }
}

/// Sets the honorary position of a vault up at time `now`: the pool must
/// collect fees in the quote mint only, else the call is refused as
/// `validate_quote_only_pool` refuses the pool.
pub fn handle_initialize_honorary_position(
    pool: &Pool,
    addresses: &PositionAddresses,
    bump: u8,
    now: i64,
) -> (result: Result<InitializedPosition, HonouraryError>)
    ensures
        match quote_only_check(*pool, addresses.quote_mint) {
            Err(e) => result is Err && result->Err_0 == e,
            Ok(_) => {
                &&& result is Ok
                &&& result->Ok_0.owner == new_position_owner(*addresses, bump, now)
                &&& result->Ok_0.event == (HonoraryPositionInitialized {
                    vault: addresses.vault,
                    pool: addresses.pool,
                    position: addresses.position,
                    quote_mint: addresses.quote_mint,
                    position_owner: addresses.position_owner,
                    timestamp: now,
                })
            },
        },
{
    match preflight_position_validation(pool, &addresses.quote_mint) {
        Ok(()) => {},
        Err(e) => {
            return Err(e);
        },
    }
    let owner = InvestorFeePositionOwner {
        vault: addresses.vault,
        pool: addresses.pool,
        position_mint: addresses.position_mint,
        quote_mint: addresses.quote_mint,
        position_account: addresses.position,
        bump: bump,
        created_at: now,
        total_fees_claimed: 0,
    };
    let event = HonoraryPositionInitialized {
        vault: addresses.vault,
        pool: addresses.pool,
        position: addresses.position,
        quote_mint: addresses.quote_mint,
        position_owner: addresses.position_owner,
        timestamp: now,
    };
    Ok(InitializedPosition { owner, event })
}

} // verus!
