//! Adding liquidity to the honorary position of a vault.

use vstd::prelude::*;
use crate::address::Address;
use crate::cp_amm_types::Pool;
use crate::error::HonouraryError;
use crate::integrations::cp_amm::add_liquidity_account_uses;
use crate::integrations::cp_amm::add_liquidity_accounts;
use crate::integrations::cp_amm::add_liquidity_data;
use crate::integrations::cp_amm::AccountUse;
use crate::integrations::cp_amm::add_liquidity_instruction_data;
use crate::integrations::cp_amm::quote_is_token_a;

verus! {

/// What is to be done to add liquidity: two transfers from the funder to
/// the treasuries, then the venue's instruction.
#[derive(Debug)]
pub struct AddLiquidityPlan {
    /// To transfer to the quote treasury.
    pub quote_transfer: u64,
    /// To transfer to the base treasury.
    pub base_transfer: u64,
    /// Whether the venue takes the quote accounts as token A.
    pub quote_is_token_a: bool,
    /// The accounts of the venue's instruction, in its order.
    pub accounts: Vec<AccountUse>,
    /// The data of the venue's instruction.
    pub instruction_data: Vec<u8>,
}

/// Plans the adding of liquidity. `MathOverflow` exactly when no liquidity
/// is to be added. Else the quote treasury is sent the threshold of token A
/// and the base treasury that of token B, as the most that the venue may
/// take of each.
pub fn handle_add_honorary_liquidity(
    pool: &Pool,
    quote_mint: &Address,
    liquidity_delta: u128,
    token_a_amount_threshold: u64,
    token_b_amount_threshold: u64,
) -> (result: Result<AddLiquidityPlan, HonouraryError>)
    ensures
        liquidity_delta == 0 ==> result is Err && result->Err_0 == HonouraryError::MathOverflow,
        liquidity_delta > 0 ==> {
            &&& result is Ok
            &&& result->Ok_0.quote_transfer == token_a_amount_threshold
            &&& result->Ok_0.base_transfer == token_b_amount_threshold
            &&& result->Ok_0.quote_is_token_a == (pool.token_a_mint == *quote_mint)
            &&& result->Ok_0.accounts@ == add_liquidity_account_uses(
                pool.token_a_mint == *quote_mint,
            )
            &&& result->Ok_0.instruction_data@ == add_liquidity_data(
                liquidity_delta,
                token_a_amount_threshold,
                token_b_amount_threshold,
            )
        },
{
    let instruction_data = match add_liquidity_instruction_data(
        liquidity_delta,
        token_a_amount_threshold,
        token_b_amount_threshold,
    ) {
        Ok(data) => data,
        Err(e) => {
            return Err(e);
        },
    };
    let is_a: bool = quote_is_token_a(pool, quote_mint);
    Ok(
        AddLiquidityPlan {
            quote_transfer: token_a_amount_threshold,
            base_transfer: token_b_amount_threshold,
            quote_is_token_a: is_a,
            accounts: add_liquidity_accounts(is_a),
            instruction_data,
        },
    )
}

} // verus!
