use fee_router::error::HonouraryError;
use fee_router::utils::math::{
    apply_dust_threshold, calculate_creator_remainder, calculate_eligible_investor_share_bps,
    calculate_individual_payout, calculate_investor_fee_amount, check_daily_cap, payout_under_cap,
};

#[test]
fn test_eligible_share_calculation() {
    // Test case: 50% locked, max 30% share
    let result = calculate_eligible_investor_share_bps(5000, 10000, 3000).unwrap();
    assert_eq!(result, 3000); // Should return max share (30%)

    // Test case: 20% locked, max 30% share
    let result = calculate_eligible_investor_share_bps(2000, 10000, 3000).unwrap();
    assert_eq!(result, 2000); // Should return locked percentage (20%)
}

#[test]
fn test_dust_threshold() {
    let (payout, dust) = apply_dust_threshold(500, 1000);
    assert_eq!(payout, 0);
    assert_eq!(dust, 500);

    let (payout, dust) = apply_dust_threshold(1500, 1000);
    assert_eq!(payout, 1500);
    assert_eq!(dust, 0);
}

#[test]
fn eligible_share_is_zero_without_allocation() {
    assert_eq!(calculate_eligible_investor_share_bps(5000, 0, 3000), Ok(0));
}

#[test]
fn eligible_share_is_clamped_to_the_whole() {
    assert_eq!(calculate_eligible_investor_share_bps(u64::MAX, 1, u16::MAX), Ok(10000));
    assert_eq!(calculate_eligible_investor_share_bps(300, 100, 20000), Ok(10000));
}

#[test]
fn eligible_share_rounds_down() {
    // 1 of 3 locked is 3333.33.. basis points
    assert_eq!(calculate_eligible_investor_share_bps(1, 3, 10000), Ok(3333));
}

#[test]
fn investor_fee_amount_rounds_down() {
    assert_eq!(calculate_investor_fee_amount(1000, 3000), Ok(300));
    assert_eq!(calculate_investor_fee_amount(999, 3333), Ok(332));
    assert_eq!(calculate_investor_fee_amount(u64::MAX, 10000), Ok(u64::MAX));
    assert_eq!(calculate_investor_fee_amount(0, 10000), Ok(0));
}

#[test]
fn investor_fee_amount_overflows_above_the_whole() {
    assert_eq!(calculate_investor_fee_amount(u64::MAX, 20000), Err(HonouraryError::MathOverflow));
}

#[test]
fn individual_payout_is_pro_rata() {
    assert_eq!(calculate_individual_payout(300, 60, 100), Ok(180));
    assert_eq!(calculate_individual_payout(300, 40, 100), Ok(120));
    assert_eq!(calculate_individual_payout(100, 1, 3), Ok(33));
}

#[test]
fn individual_payout_is_zero_when_nothing_is_locked() {
    assert_eq!(calculate_individual_payout(300, 60, 0), Ok(0));
}

#[test]
fn individual_payout_overflows_when_locked_exceeds_total() {
    assert_eq!(calculate_individual_payout(u64::MAX, u64::MAX, 1), Err(HonouraryError::MathOverflow));
}

#[test]
fn dust_threshold_pays_at_the_threshold() {
    assert_eq!(apply_dust_threshold(1000, 1000), (1000, 0));
    assert_eq!(apply_dust_threshold(999, 1000), (0, 999));
    assert_eq!(apply_dust_threshold(0, 0), (0, 0));
}

#[test]
fn creator_remainder_subtracts_payouts_and_dust() {
    assert_eq!(calculate_creator_remainder(1000, 300, 0), Ok(700));
    assert_eq!(calculate_creator_remainder(1000, 300, 50), Ok(650));
}

#[test]
fn creator_remainder_never_goes_below_zero() {
    assert_eq!(calculate_creator_remainder(100, 300, 0), Ok(0));
    assert_eq!(calculate_creator_remainder(100, 60, 50), Ok(0));
}

#[test]
fn daily_cap_clamps_to_headroom() {
    assert_eq!(check_daily_cap(230, 100, Some(250)), Ok(20));
    assert_eq!(check_daily_cap(100, 100, Some(250)), Ok(100));
    assert_eq!(check_daily_cap(150, 100, Some(250)), Ok(100));
    assert_eq!(check_daily_cap(250, 100, Some(250)), Ok(0));
    assert_eq!(check_daily_cap(300, 100, Some(250)), Ok(0));
}

#[test]
fn daily_cap_absent_lets_everything_through() {
    assert_eq!(check_daily_cap(u64::MAX, u64::MAX, None), Ok(u64::MAX));
}

#[test]
fn daily_cap_check_fails_closed_on_overflow() {
    assert_eq!(check_daily_cap(u64::MAX, 1, Some(10)), Err(HonouraryError::MathOverflow));
}

#[test]
fn payout_under_cap_never_overflows() {
    assert_eq!(payout_under_cap(u64::MAX, 1, Some(10)), 0);
    assert_eq!(payout_under_cap(5, u64::MAX, Some(10)), 5);
    assert_eq!(payout_under_cap(5, 7, None), 7);
}
