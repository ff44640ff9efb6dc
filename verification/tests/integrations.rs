use fee_router::address::Address;
use fee_router::cp_amm_types::Pool;
use fee_router::error::HonouraryError;
use fee_router::instructions::add_honorary_liquidity::handle_add_honorary_liquidity;
use fee_router::integrations::cp_amm::{
    add_liquidity_accounts, add_liquidity_instruction_data, claim_position_fee_instruction,
    claim_position_fees_quote_only, create_honorary_position, order_by_token_layout,
    quote_is_token_a, treasury_balances, AccountUse, TreasuryBalances, VenueAccount,
    ADD_LIQUIDITY_DISCRIMINATOR, CLAIM_POSITION_FEE_DISCRIMINATOR, CREATE_POSITION_DISCRIMINATOR,
};
use fee_router::integrations::streamflow::{
    calculate_total_locked_amounts, parse_investor_accounts, read_locked_amount_from_stream, validate_streamflow_accounts, InvestorData, StreamAccount,
    StreamAmounts, STREAMFLOW_DEVNET_PROGRAM_ID, STREAMFLOW_PROGRAM_ID,
};

fn addr(b: u8) -> Address {
    Address::new_from_array([b; 32])
}

/// The data of an initialised token account that holds `amount`.
fn token_account(amount: u64) -> Vec<u8> {
    let mut data = vec![0u8; 165];
    for b in data.iter_mut().take(32) {
        *b = 1;
    }
    for b in data.iter_mut().skip(32).take(32) {
        *b = 2;
    }
    data[64..72].copy_from_slice(&amount.to_le_bytes());
    data[108] = 1;
    data
}

fn balances(quote: u64, base: u64) -> TreasuryBalances {
    TreasuryBalances { quote, base }
}

#[test]
fn treasury_balances_are_read_from_token_accounts() {
    let out = treasury_balances(&token_account(123_456), &token_account(7)).unwrap();
    assert_eq!(out, balances(123_456, 7));
    let out = treasury_balances(&token_account(u64::MAX), &token_account(0)).unwrap();
    assert_eq!(out, balances(u64::MAX, 0));
}

#[test]
fn treasury_balances_fail_on_other_data() {
    assert!(treasury_balances(&[], &token_account(7)).is_err());
    assert!(treasury_balances(&token_account(7), &[0u8; 164]).is_err());
    // a token account that was never initialised
    assert!(treasury_balances(&[0u8; 165], &token_account(7)).is_err());
    let mut short = token_account(5);
    short.truncate(100);
    assert!(treasury_balances(&token_account(7), &short).is_err());
}

#[test]
fn claim_is_the_growth_of_the_quote_balance() {
    assert_eq!(claim_position_fees_quote_only(balances(100, 5), balances(1100, 5)), Ok(1000));
    assert_eq!(claim_position_fees_quote_only(balances(100, 0), balances(100, 0)), Ok(0));
    assert_eq!(claim_position_fees_quote_only(balances(0, 0), balances(u64::MAX, 0)), Ok(u64::MAX));
}

#[test]
fn claim_is_tainted_by_any_base_change() {
    assert_eq!(
        claim_position_fees_quote_only(balances(100, 5), balances(1100, 6)),
        Err(HonouraryError::BaseFeesDetected)
    );
    assert_eq!(
        claim_position_fees_quote_only(balances(100, 5), balances(1100, 4)),
        Err(HonouraryError::BaseFeesDetected)
    );
    // taint is reported before a shrunken quote balance
    assert_eq!(
        claim_position_fees_quote_only(balances(100, 5), balances(50, 6)),
        Err(HonouraryError::BaseFeesDetected)
    );
}

#[test]
fn claim_fails_when_the_quote_balance_shrank() {
    assert_eq!(
        claim_position_fees_quote_only(balances(100, 5), balances(99, 5)),
        Err(HonouraryError::MathOverflow)
    );
}

#[test]
fn accounts_are_ordered_by_token_layout() {
    assert_eq!(order_by_token_layout(true, "quote", "base"), ("quote", "base"));
    assert_eq!(order_by_token_layout(false, "quote", "base"), ("base", "quote"));
    let mut pool = Pool::default();
    pool.token_a_mint = addr(1);
    pool.token_b_mint = addr(2);
    assert!(quote_is_token_a(&pool, &addr(1)));
    assert!(!quote_is_token_a(&pool, &addr(2)));
}

#[test]
fn instruction_discriminators() {
    assert_eq!(CREATE_POSITION_DISCRIMINATOR, [48, 215, 197, 153, 96, 203, 180, 133]);
    assert_eq!(CLAIM_POSITION_FEE_DISCRIMINATOR, [180, 38, 154, 17, 133, 33, 162, 211]);
    assert_eq!(ADD_LIQUIDITY_DISCRIMINATOR, [181, 157, 89, 67, 143, 182, 52, 72]);
}

#[test]
fn add_liquidity_data_is_discriminator_and_numbers() {
    let data = add_liquidity_instruction_data(0x0102_0304_0506_0708_090a_0b0c_0d0e_0f10, 513, 3)
        .unwrap();
    let mut expected = vec![181, 157, 89, 67, 143, 182, 52, 72];
    expected.extend_from_slice(&[16, 15, 14, 13, 12, 11, 10, 9, 8, 7, 6, 5, 4, 3, 2, 1]);
    expected.extend_from_slice(&[1, 2, 0, 0, 0, 0, 0, 0]);
    expected.extend_from_slice(&[3, 0, 0, 0, 0, 0, 0, 0]);
    assert_eq!(data, expected);
    assert_eq!(data.len(), 40);
}

#[test]
fn add_liquidity_refuses_zero_liquidity() {
    assert_eq!(add_liquidity_instruction_data(0, 1, 1), Err(HonouraryError::MathOverflow));
    let pool = Pool::default();
    assert_eq!(
        handle_add_honorary_liquidity(&pool, &addr(1), 0, 1, 1).err(),
        Some(HonouraryError::MathOverflow)
    );
}

#[test]
fn add_liquidity_plan() {
    let mut pool = Pool::default();
    pool.token_a_mint = addr(1);
    pool.token_b_mint = addr(2);
    let plan = handle_add_honorary_liquidity(&pool, &addr(2), 5, 70, 80).unwrap();
    assert_eq!(plan.quote_transfer, 70);
    assert_eq!(plan.base_transfer, 80);
    assert!(!plan.quote_is_token_a);
    assert_eq!(plan.instruction_data, add_liquidity_instruction_data(5, 70, 80).unwrap());
    let plan = handle_add_honorary_liquidity(&pool, &addr(1), 5, 70, 80).unwrap();
    assert!(plan.quote_is_token_a);
}

#[test]
fn total_locked_is_the_sum() {
    assert_eq!(calculate_total_locked_amounts(&[]), Ok(0));
    assert_eq!(calculate_total_locked_amounts(&[60, 40]), Ok(100));
    assert_eq!(calculate_total_locked_amounts(&[u64::MAX - 1, 1]), Ok(u64::MAX));
}

#[test]
fn total_locked_fails_closed_on_overflow() {
    assert_eq!(calculate_total_locked_amounts(&[u64::MAX, 1]), Err(HonouraryError::MathOverflow));
    assert_eq!(
        calculate_total_locked_amounts(&[1, u64::MAX, 0]),
        Err(HonouraryError::MathOverflow)
    );
}

#[test]
fn investor_accounts_come_in_pairs() {
    assert_eq!(
        parse_investor_accounts(10, 1, 2),
        Ok(vec![
            InvestorData { stream_account: 2, investor_ata: 3 },
            InvestorData { stream_account: 4, investor_ata: 5 },
        ])
    );
    assert_eq!(parse_investor_accounts(6, 1, 2).unwrap().len(), 2);
    assert_eq!(parse_investor_accounts(0, 0, 0), Ok(vec![]));
}

#[test]
fn investor_accounts_must_reach_the_end_of_the_page() {
    assert_eq!(parse_investor_accounts(5, 1, 2), Err(HonouraryError::InvalidPagination));
    assert_eq!(parse_investor_accounts(0, 0, 1), Err(HonouraryError::InvalidPagination));
    assert_eq!(parse_investor_accounts(7, u32::MAX, 1), Err(HonouraryError::InvalidPagination));
}

#[test]
fn locked_amount_is_deposit_less_claimable() {
    let contract = StreamAmounts { net_amount_deposited: 1000, available_to_claim: 400 };
    assert_eq!(read_locked_amount_from_stream(Some(contract)), Ok(600));
    let contract = StreamAmounts { net_amount_deposited: u64::MAX, available_to_claim: 0 };
    assert_eq!(read_locked_amount_from_stream(Some(contract)), Ok(u64::MAX));
}

#[test]
fn locked_amount_never_goes_below_zero() {
    let contract = StreamAmounts { net_amount_deposited: 400, available_to_claim: 1000 };
    assert_eq!(read_locked_amount_from_stream(Some(contract)), Ok(0));
    let contract = StreamAmounts { net_amount_deposited: 400, available_to_claim: 400 };
    assert_eq!(read_locked_amount_from_stream(Some(contract)), Ok(0));
}

#[test]
fn locked_amount_fails_without_a_stream() {
    assert_eq!(
        read_locked_amount_from_stream(None),
        Err(HonouraryError::InsufficientStreamflowData)
    );
}

#[test]
fn stream_accounts_must_belong_to_the_ledger() {
    let good = StreamAccount { owner: addr(9), data_len: 100 };
    let foreign = StreamAccount { owner: addr(8), data_len: 100 };
    let empty = StreamAccount { owner: addr(9), data_len: 0 };
    assert_eq!(validate_streamflow_accounts(&[], &addr(9)), Ok(()));
    assert_eq!(validate_streamflow_accounts(&[good, good], &addr(9)), Ok(()));
    assert_eq!(
        validate_streamflow_accounts(&[good, foreign], &addr(9)),
        Err(HonouraryError::InsufficientStreamflowData)
    );
    assert_eq!(
        validate_streamflow_accounts(&[empty, good], &addr(9)),
        Err(HonouraryError::InsufficientStreamflowData)
    );
}

#[test]
fn ledger_program_ids() {
    assert_eq!(STREAMFLOW_PROGRAM_ID, "strmRqUCoQUgGUan5YhzUZa6KqdzwX5L6FpUxfmKg5m");
    assert_eq!(STREAMFLOW_DEVNET_PROGRAM_ID, "HqDGZjaVRXJ9MGRQEw7qDc2rAr6iH1n1kAQdCZaCMfMZ");
}

fn used(account: VenueAccount, is_signer: bool, is_writable: bool) -> AccountUse {
    AccountUse { account, is_signer, is_writable }
}

#[test]
fn create_position_instruction() {
    let (accounts, data) = create_honorary_position();
    assert_eq!(data, vec![48, 215, 197, 153, 96, 203, 180, 133]);
    assert_eq!(
        accounts,
        vec![
            used(VenueAccount::PositionOwner, true, false),
            used(VenueAccount::PositionNftMint, true, true),
            used(VenueAccount::PositionNftAccount, false, true),
            used(VenueAccount::Pool, false, true),
            used(VenueAccount::Position, false, true),
            used(VenueAccount::PoolAuthority, false, false),
            used(VenueAccount::Payer, true, true),
            used(VenueAccount::TokenProgram, false, false),
            used(VenueAccount::SystemProgram, false, false),
            used(VenueAccount::EventAuthority, false, false),
            used(VenueAccount::Program, false, false),
        ]
    );
}

#[test]
fn claim_instruction_with_quote_as_token_b() {
    let (accounts, data) = claim_position_fee_instruction(false);
    assert_eq!(data, vec![180, 38, 154, 17, 133, 33, 162, 211]);
    assert_eq!(
        accounts,
        vec![
            used(VenueAccount::PoolAuthority, false, false),
            used(VenueAccount::Pool, false, false),
            used(VenueAccount::Position, false, true),
            used(VenueAccount::BaseTreasury, false, true),
            used(VenueAccount::QuoteTreasury, false, true),
            used(VenueAccount::BaseVault, false, true),
            used(VenueAccount::QuoteVault, false, true),
            used(VenueAccount::BaseMint, false, false),
            used(VenueAccount::QuoteMint, false, false),
            used(VenueAccount::PositionNftAccount, false, false),
            used(VenueAccount::PositionOwner, true, false),
            used(VenueAccount::BaseTokenProgram, false, false),
            used(VenueAccount::QuoteTokenProgram, false, false),
            used(VenueAccount::EventAuthority, false, false),
            used(VenueAccount::Program, false, false),
        ]
    );
}

#[test]
fn claim_instruction_with_quote_as_token_a() {
    let (accounts, _) = claim_position_fee_instruction(true);
    assert_eq!(accounts.len(), 15);
    assert_eq!(accounts[3], used(VenueAccount::QuoteTreasury, false, true));
    assert_eq!(accounts[4], used(VenueAccount::BaseTreasury, false, true));
    assert_eq!(accounts[5], used(VenueAccount::QuoteVault, false, true));
    assert_eq!(accounts[6], used(VenueAccount::BaseVault, false, true));
    assert_eq!(accounts[7], used(VenueAccount::QuoteMint, false, false));
    assert_eq!(accounts[8], used(VenueAccount::BaseMint, false, false));
    assert_eq!(accounts[11], used(VenueAccount::QuoteTokenProgram, false, false));
    assert_eq!(accounts[12], used(VenueAccount::BaseTokenProgram, false, false));
}

#[test]
fn add_liquidity_accounts_follow_the_token_layout() {
    let accounts = add_liquidity_accounts(true);
    assert_eq!(
        accounts,
        vec![
            used(VenueAccount::Pool, false, true),
            used(VenueAccount::Position, false, true),
            used(VenueAccount::QuoteTreasury, false, true),
            used(VenueAccount::BaseTreasury, false, true),
            used(VenueAccount::QuoteVault, false, true),
            used(VenueAccount::BaseVault, false, true),
            used(VenueAccount::QuoteMint, false, false),
            used(VenueAccount::BaseMint, false, false),
            used(VenueAccount::PositionNftAccount, false, false),
            used(VenueAccount::PositionOwner, true, false),
            used(VenueAccount::QuoteTokenProgram, false, false),
            used(VenueAccount::BaseTokenProgram, false, false),
            used(VenueAccount::EventAuthority, false, false),
            used(VenueAccount::Program, false, false),
        ]
    );
    let swapped = add_liquidity_accounts(false);
    assert_eq!(swapped[2], used(VenueAccount::BaseTreasury, false, true));
    assert_eq!(swapped[3], used(VenueAccount::QuoteTreasury, false, true));
    let mut pool = Pool::default();
    pool.token_a_mint = addr(1);
    let plan = handle_add_honorary_liquidity(&pool, &addr(1), 5, 70, 80).unwrap();
    assert_eq!(plan.accounts, accounts);
}
