use anchor_lang::prelude::Pubkey;
use fee_router::address::Address;
use fee_router::constants::{
    BASIS_POINTS_DIVISOR, INVESTOR_FEE_POS_OWNER_SEED, MAX_INVESTORS, MAX_PAGE_SIZE,
    MIN_PAYOUT_THRESHOLD, POLICY_SEED, PROGRESS_SEED, SECONDS_PER_DAY, TREASURY_SEED, VAULT_SEED,
};
use fee_router::cp_amm_types::{
    account_body, CpAmm, Pool, Position, CP_AMM_PROGRAM_ID, POOL_DISCRIMINATOR,
    POSITION_DISCRIMINATOR,
};
use fee_router::error::HonouraryError;
use fee_router::instructions::initialize_position::{
    handle_initialize_honorary_position, PositionAddresses,
};
use fee_router::utils::pda::{
    derive_investor_fee_position_owner_pda, derive_policy_pda, derive_progress_pda,
    derive_treasury_pda, position_owner_signer_seeds,
};
use fee_router::utils::validation::{
    determine_quote_mint, preflight_position_validation, validate_position_ownership,
    validate_quote_only_pool,
};

fn addr(b: u8) -> Address {
    Address::new_from_array([b; 32])
}

fn key(a: &Address) -> Pubkey {
    Pubkey::new_from_array(a.to_bytes())
}

fn pool(mode: u8, status: u8) -> Pool {
    let mut pool = Pool::default();
    pool.collect_fee_mode = mode;
    pool.pool_status = status;
    pool.token_a_mint = addr(10);
    pool.token_b_mint = addr(11);
    pool
}

#[test]
fn seeds_are_the_bytes_of_their_names() {
    assert_eq!(&VAULT_SEED[..], b"vault");
    assert_eq!(&INVESTOR_FEE_POS_OWNER_SEED[..], b"investor_fee_pos_owner");
    assert_eq!(&POLICY_SEED[..], b"policy");
    assert_eq!(&PROGRESS_SEED[..], b"progress");
    assert_eq!(&TREASURY_SEED[..], b"treasury");
    assert_eq!(SECONDS_PER_DAY, 86400);
    assert_eq!(BASIS_POINTS_DIVISOR, 10000);
    assert_eq!(MAX_PAGE_SIZE, 50);
    assert_eq!(MIN_PAYOUT_THRESHOLD, 1000);
    assert_eq!(MAX_INVESTORS, 2048);
}

#[test]
fn error_codes_start_at_6000() {
    assert_eq!(HonouraryError::QuoteOnlyValidationFailed.code(), 6000);
    assert_eq!(HonouraryError::BaseFeesDetected.code(), 6001);
    assert_eq!(HonouraryError::CrankWindowNotReached.code(), 6002);
    assert_eq!(HonouraryError::InvalidPagination.code(), 6003);
    assert_eq!(HonouraryError::InsufficientStreamflowData.code(), 6004);
    assert_eq!(HonouraryError::DistributionAlreadyComplete.code(), 6005);
    assert_eq!(HonouraryError::InvalidPoolConfiguration.code(), 6006);
    assert_eq!(HonouraryError::MathOverflow.code(), 6007);
    assert_eq!(HonouraryError::AccountCountMismatch.code(), 6008);
    assert_eq!(HonouraryError::DailyCapExceeded.code(), 6009);
    assert_eq!(HonouraryError::InvalidPositionOwnership.code(), 6010);
    assert_eq!(HonouraryError::PageAlreadyProcessed.code(), 6011);
    assert_eq!(HonouraryError::InvalidTotalLockedAmount.code(), 6012);
    assert_eq!(HonouraryError::InvalidPaginationSequence.code(), 6013);
    assert_eq!(HonouraryError::InvestorAlreadyPaid.code(), 6014);
}

#[test]
fn error_messages_name_the_failure() {
    assert_eq!(
        HonouraryError::MathOverflow.message(),
        "Math overflow in distribution calculations"
    );
    assert_eq!(
        HonouraryError::InvestorAlreadyPaid.message(),
        "Investor already paid in this distribution day - duplicate payment prevented"
    );
    assert_eq!(HonouraryError::DailyCapExceeded.message(), "Daily distribution cap exceeded");
}

#[test]
fn quote_only_pool_passes() {
    assert_eq!(validate_quote_only_pool(&pool(1, 0), &addr(11)), Ok(()));
    assert_eq!(preflight_position_validation(&pool(1, 0), &addr(11)), Ok(()));
}

#[test]
fn quote_only_pool_rejects_other_quote_mint() {
    assert_eq!(
        validate_quote_only_pool(&pool(1, 0), &addr(10)),
        Err(HonouraryError::QuoteOnlyValidationFailed)
    );
    // the mint is looked at before the status
    assert_eq!(
        validate_quote_only_pool(&pool(1, 1), &addr(10)),
        Err(HonouraryError::QuoteOnlyValidationFailed)
    );
}

#[test]
fn quote_only_pool_rejects_both_token_mode() {
    assert_eq!(
        validate_quote_only_pool(&pool(0, 0), &addr(11)),
        Err(HonouraryError::QuoteOnlyValidationFailed)
    );
    assert_eq!(
        preflight_position_validation(&pool(0, 0), &addr(11)),
        Err(HonouraryError::QuoteOnlyValidationFailed)
    );
}

#[test]
fn quote_only_pool_rejects_unknown_mode_and_disabled_pool() {
    assert_eq!(
        validate_quote_only_pool(&pool(2, 0), &addr(11)),
        Err(HonouraryError::InvalidPoolConfiguration)
    );
    assert_eq!(
        validate_quote_only_pool(&pool(1, 1), &addr(11)),
        Err(HonouraryError::InvalidPoolConfiguration)
    );
}

#[test]
fn quote_mint_is_token_b_in_only_b_mode() {
    assert_eq!(determine_quote_mint(&pool(1, 0)), Ok(addr(11)));
    assert_eq!(determine_quote_mint(&pool(0, 0)), Err(HonouraryError::InvalidPoolConfiguration));
    assert_eq!(determine_quote_mint(&pool(7, 0)), Err(HonouraryError::InvalidPoolConfiguration));
}

#[test]
fn position_ownership_compares_addresses() {
    assert_eq!(validate_position_ownership(&addr(1), &addr(1)), Ok(()));
    assert_eq!(
        validate_position_ownership(&addr(1), &addr(2)),
        Err(HonouraryError::InvalidPositionOwnership)
    );
}

#[test]
fn derived_addresses_are_those_of_the_ledger() {
    let vault = addr(21);
    let mint = addr(22);
    let program = Address::new_from_array(CP_AMM_PROGRAM_ID);
    let (k, b) = Pubkey::find_program_address(
        &[b"vault", &[21u8; 32], b"investor_fee_pos_owner"],
        &key(&program),
    );
    assert_eq!(
        derive_investor_fee_position_owner_pda(&vault, &program),
        Some((Address::new_from_array(k.to_bytes()), b))
    );
    let (k, b) = Pubkey::find_program_address(&[b"policy", &[21u8; 32]], &key(&program));
    assert_eq!(derive_policy_pda(&vault, &program), Some((Address::new_from_array(k.to_bytes()), b)));
    let (k, b) = Pubkey::find_program_address(&[b"progress", &[21u8; 32]], &key(&program));
    assert_eq!(
        derive_progress_pda(&vault, &program),
        Some((Address::new_from_array(k.to_bytes()), b))
    );
    let (k, b) =
        Pubkey::find_program_address(&[b"treasury", &[21u8; 32], &[22u8; 32]], &key(&program));
    assert_eq!(
        derive_treasury_pda(&vault, &mint, &program),
        Some((Address::new_from_array(k.to_bytes()), b))
    );
    // a derived address is neither the vault nor the program
    let (policy, _) = derive_policy_pda(&vault, &program).unwrap();
    assert_ne!(policy, vault);
    assert_ne!(policy, program);
    let (progress, _) = derive_progress_pda(&vault, &program).unwrap();
    assert_ne!(policy, progress);
}

#[test]
fn derived_address_is_recreated_from_its_bump() {
    let vault = addr(33);
    let program = addr(44);
    let (address, bump) = derive_policy_pda(&vault, &program).unwrap();
    let again =
        Pubkey::create_program_address(&[b"policy", &[33u8; 32], &[bump]], &key(&program)).unwrap();
    assert_eq!(again.to_bytes(), address.to_bytes());
}

#[test]
fn signer_seeds_hold_the_bump_last() {
    assert_eq!(
        position_owner_signer_seeds(&addr(5), &[200]),
        vec![b"vault".to_vec(), vec![5u8; 32], b"investor_fee_pos_owner".to_vec(), vec![200u8]]
    );
}

#[test]
fn venue_ids_and_discriminators() {
    assert_eq!(key(&CpAmm::id()).to_string(), "ASmKWt93JEMHxbdE6j7znD9y2FcdPboCzC3xtSTJvN7S");
    assert_eq!(Pool::owner(), CpAmm::id());
    assert_eq!(Position::owner(), CpAmm::id());
    assert_eq!(POOL_DISCRIMINATOR, [241, 154, 109, 4, 17, 177, 109, 188]);
    assert_eq!(POSITION_DISCRIMINATOR, [170, 188, 143, 228, 122, 64, 247, 208]);
}

#[test]
fn account_body_skips_the_discriminator() {
    assert_eq!(account_body(&[1, 2, 3, 4, 5, 6, 7]), None);
    assert_eq!(account_body(&[1, 2, 3, 4, 5, 6, 7, 8]), Some(&[][..]));
    assert_eq!(account_body(&[1, 2, 3, 4, 5, 6, 7, 8, 9, 10]), Some(&[9u8, 10][..]));
    assert_eq!(account_body(&[]), None);
}

#[test]
fn default_accounts_are_zeroed() {
    let pool = Pool::default();
    assert_eq!(pool.token_a_mint, addr(0));
    assert_eq!(pool.token_b_mint, addr(0));
    assert_eq!(pool.collect_fee_mode, 0);
    assert_eq!(pool.pool_status, 0);
    assert_eq!(pool.liquidity, 0);
    assert_eq!(pool.pool_fees.data, [0u64; 20]);
    assert_eq!(pool.reward_infos[1].mint, addr(0));
    assert_eq!(pool.metrics.total_position, 0);
    let position = Position::default();
    assert_eq!(position.pool, addr(0));
    assert_eq!(position.nft_mint, addr(0));
    assert_eq!(position.fee_b_pending, 0);
    assert_eq!(position.padding, [0u128; 6]);
    assert_eq!(position.reward_infos[0].reward_pendings, 0);
}

#[test]
fn initialize_position_records_the_owner() {
    let addresses = PositionAddresses {
        vault: addr(1),
        pool: addr(2),
        position_mint: addr(3),
        quote_mint: addr(11),
        position: addr(5),
        position_owner: addr(6),
    };
    let out = handle_initialize_honorary_position(&pool(1, 0), &addresses, 254, 999).unwrap();
    assert_eq!(out.owner.vault, addr(1));
    assert_eq!(out.owner.pool, addr(2));
    assert_eq!(out.owner.position_mint, addr(3));
    assert_eq!(out.owner.quote_mint, addr(11));
    assert_eq!(out.owner.position_account, addr(5));
    assert_eq!(out.owner.bump, 254);
    assert_eq!(out.owner.created_at, 999);
    assert_eq!(out.owner.total_fees_claimed, 0);
    assert_eq!(out.event.vault, addr(1));
    assert_eq!(out.event.pool, addr(2));
    assert_eq!(out.event.position, addr(5));
    assert_eq!(out.event.quote_mint, addr(11));
    assert_eq!(out.event.position_owner, addr(6));
    assert_eq!(out.event.timestamp, 999);
}

#[test]
fn initialize_position_refuses_pools_with_base_fees() {
    let addresses = PositionAddresses {
        vault: addr(1),
        pool: addr(2),
        position_mint: addr(3),
        quote_mint: addr(11),
        position: addr(5),
        position_owner: addr(6),
    };
    assert_eq!(
        handle_initialize_honorary_position(&pool(0, 0), &addresses, 1, 1).err(),
        Some(HonouraryError::QuoteOnlyValidationFailed)
    );
    assert_eq!(
        handle_initialize_honorary_position(&pool(1, 1), &addresses, 1, 1).err(),
        Some(HonouraryError::InvalidPoolConfiguration)
    );
}
