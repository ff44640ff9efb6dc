//! Checks on the pool and on the position before anything is set up.

use vstd::prelude::*;
use crate::address::Address;
use crate::cp_amm_types::Pool;
use crate::error::HonouraryError;

verus! {

/// What the check of a pool against the expected quote mint says.
///
/// A pool that collects fees in token B only passes when token B is the
/// quote mint and the pool is enabled. Where token B is another mint, or
/// the pool collects fees in both tokens, fees in the base token are
/// possible: `QuoteOnlyValidationFailed`. An unknown fee mode or a disabled
/// pool is `InvalidPoolConfiguration`.
pub open spec fn quote_only_check(pool: Pool, expected_quote_mint: Address) -> Result<
    (),
    HonouraryError,
> {
    if pool.collect_fee_mode == 1 {
        if pool.token_b_mint != expected_quote_mint {
            Err(HonouraryError::QuoteOnlyValidationFailed)
        } else if pool.pool_status != 0 {
            Err(HonouraryError::InvalidPoolConfiguration)
        } else {
            Ok(())
        }
    } else if pool.collect_fee_mode == 0 {
        Err(HonouraryError::QuoteOnlyValidationFailed)
    } else {
        Err(HonouraryError::InvalidPoolConfiguration)
    }
}

/// Validate that a pool is configured for quote-only fee collection.
pub fn validate_quote_only_pool(pool: &Pool, expected_quote_mint: &Address) -> (result: Result<
    (),
    HonouraryError,
>)
    ensures
        result == quote_only_check(*pool, *expected_quote_mint),
{
    if pool.collect_fee_mode == 1 {
        if pool.token_b_mint != *expected_quote_mint {
            return Err(HonouraryError::QuoteOnlyValidationFailed);
        }
    } else if pool.collect_fee_mode == 0 {
        return Err(HonouraryError::QuoteOnlyValidationFailed);
    } else {
        return Err(HonouraryError::InvalidPoolConfiguration);
    }
    if pool.pool_status != 0 {
        return Err(HonouraryError::InvalidPoolConfiguration);
    }
    Ok(())
}

/// The quote mint of a pool: token B where the pool collects fees in token
/// B only; `InvalidPoolConfiguration` for any other fee mode.
pub fn determine_quote_mint(pool: &Pool) -> (result: Result<Address, HonouraryError>)
    ensures
        pool.collect_fee_mode == 1 ==> result == Ok::<Address, HonouraryError>(pool.token_b_mint),
        pool.collect_fee_mode != 1 ==> result == Err::<Address, HonouraryError>(
            HonouraryError::InvalidPoolConfiguration,
        ),
{
    if pool.collect_fee_mode == 1 {
        Ok(pool.token_b_mint)
    } else {
        Err(HonouraryError::InvalidPoolConfiguration)
    }
}

/// Validate that the position is owned by the derived owner address:
/// `InvalidPositionOwnership` exactly when the two addresses differ.
pub fn validate_position_ownership(position_owner_pda: &Address, actual_position_owner: &Address) -> (result:
    Result<(), HonouraryError>)
    ensures
        *position_owner_pda == *actual_position_owner ==> result is Ok,
        *position_owner_pda != *actual_position_owner ==> result == Err::<(), HonouraryError>(
            HonouraryError::InvalidPositionOwnership,
        ),
{
    if *position_owner_pda != *actual_position_owner {
        return Err(HonouraryError::InvalidPositionOwnership);
    }
    Ok(())
}

/// The check before a position is created: the pool must pass
/// `validate_quote_only_pool`.
pub fn preflight_position_validation(pool: &Pool, quote_mint: &Address) -> (result: Result<
    (),
    HonouraryError,
>)
    ensures
        result == quote_only_check(*pool, *quote_mint),
{
    validate_quote_only_pool(pool, quote_mint)
}

} // verus!
