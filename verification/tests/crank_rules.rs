use fee_router::address::Address;
use fee_router::error::HonouraryError;
use fee_router::instructions::crank_distribution::{handle_crank_distribution, InvestorPayout};
use fee_router::state::policy::Policy;
use fee_router::state::progress::DistributionProgress;

const DAY: i64 = 86400;

fn vault() -> Address {
    Address::new_from_array([7u8; 32])
}

fn policy(share_bps: u16, cap: Option<u64>, threshold: u64, y0: u64, investors: u32) -> Policy {
    Policy {
        vault: vault(),
        creator_wallet: Address::new_from_array([9u8; 32]),
        investor_fee_share_bps: share_bps,
        daily_cap_lamports: cap,
        min_payout_lamports: threshold,
        y0_total_allocation: y0,
        total_investors: investors,
        bump: 255,
        created_at: 0,
        updated_at: 0,
    }
}

fn fresh() -> DistributionProgress {
    DistributionProgress {
        vault: vault(),
        last_distribution_ts: 0,
        current_day_distributed: 0,
        current_day_carry_over: 0,
        pagination_cursor: 0,
        day_completed: true,
        current_day_total_claimed: 0,
        bump: 254,
        total_distributions: 0,
        total_investor_distributed: 0,
        total_creator_distributed: 0,
        current_day_total_locked_all: 0,
        persistent_carry_over: 0,
        last_page_start: None,
        paid_investor_bitmap: [0u8; 256],
    }
}

/// An open cycle of 10000 claimed with 100 locked in all, the cursor at 2.
fn open() -> DistributionProgress {
    let mut p = fresh();
    p.day_completed = false;
    p.last_distribution_ts = DAY;
    p.current_day_total_claimed = 10000;
    p.current_day_total_locked_all = 100;
    p.pagination_cursor = 2;
    p.last_page_start = Some(0);
    p
}

fn same(a: &DistributionProgress, b: &DistributionProgress) -> bool {
    a.vault == b.vault
        && a.last_distribution_ts == b.last_distribution_ts
        && a.current_day_distributed == b.current_day_distributed
        && a.current_day_carry_over == b.current_day_carry_over
        && a.pagination_cursor == b.pagination_cursor
        && a.day_completed == b.day_completed
        && a.current_day_total_claimed == b.current_day_total_claimed
        && a.bump == b.bump
        && a.total_distributions == b.total_distributions
        && a.total_investor_distributed == b.total_investor_distributed
        && a.total_creator_distributed == b.total_creator_distributed
        && a.current_day_total_locked_all == b.current_day_total_locked_all
        && a.persistent_carry_over == b.persistent_carry_over
        && a.last_page_start == b.last_page_start
        && a.paid_investor_bitmap == b.paid_investor_bitmap
}

fn pay(index: u32, amount: u64) -> InvestorPayout {
    InvestorPayout { investor_index: index, amount }
}

fn refused(
    progress: &DistributionProgress,
    policy: &Policy,
    page_start: u32,
    page_size: u32,
    total: u64,
    is_final: bool,
    now: i64,
    claimed: u64,
    locked: &[u64],
) -> HonouraryError {
    let mut p = *progress;
    let err =
        handle_crank_distribution(&mut p, policy, page_start, page_size, total, is_final, now, claimed, locked)
            .unwrap_err();
    assert!(same(&p, progress), "a refused call must leave the record as it was");
    err
}

#[test]
fn refuses_bad_page_sizes() {
    let pol = policy(3000, None, 1, 100, 4);
    assert_eq!(refused(&fresh(), &pol, 0, 0, 0, false, DAY, 0, &[]), HonouraryError::InvalidPagination);
    assert_eq!(
        refused(&fresh(), &pol, 0, 51, 0, true, DAY, 0, &[]),
        HonouraryError::InvalidPagination
    );
}

#[test]
fn refuses_a_new_cycle_before_a_day_has_passed() {
    let pol = policy(3000, None, 1, 100, 1);
    let mut p = fresh();
    handle_crank_distribution(&mut p, &pol, 0, 1, 100, true, DAY, 1000, &[100]).unwrap();
    assert_eq!(
        refused(&p, &pol, 0, 1, 100, true, 2 * DAY - 1, 1000, &[100]),
        HonouraryError::CrankWindowNotReached
    );
    // a day later the next cycle opens
    let out = handle_crank_distribution(&mut p, &pol, 0, 1, 100, true, 2 * DAY, 500, &[100]).unwrap();
    assert_eq!(out.payouts, vec![pay(0, 150)]);
    assert_eq!(p.total_distributions, 2);
    assert_eq!(p.last_distribution_ts, 2 * DAY);
}

#[test]
fn refuses_pages_off_the_cursor() {
    let pol = policy(3000, None, 1, 100, 10);
    assert_eq!(
        refused(&open(), &pol, 3, 2, 0, false, DAY, 0, &[1, 1]),
        HonouraryError::InvalidPaginationSequence
    );
    assert_eq!(
        refused(&open(), &pol, 1, 2, 0, false, DAY, 0, &[1, 1]),
        HonouraryError::InvalidPaginationSequence
    );
    assert_eq!(
        refused(&fresh(), &pol, 2, 2, 0, false, DAY, 0, &[1, 1]),
        HonouraryError::InvalidPaginationSequence
    );
}

#[test]
fn refuses_a_final_flag_that_contradicts_the_bounds() {
    let pol = policy(3000, None, 1, 100, 6);
    // the page ends at 4 of 6 investors: not final
    assert_eq!(
        refused(&open(), &pol, 2, 2, 0, true, DAY, 0, &[1, 1]),
        HonouraryError::InvalidPagination
    );
    // the page ends at 6 of 6 investors: final
    assert_eq!(
        refused(&open(), &pol, 2, 4, 0, false, DAY, 0, &[1, 1, 1, 1]),
        HonouraryError::InvalidPagination
    );
}

#[test]
fn refuses_a_page_that_is_not_given_its_investors() {
    let pol = policy(3000, None, 1, 100, 10);
    // more than the page covers
    assert_eq!(
        refused(&open(), &pol, 2, 2, 0, false, DAY, 0, &[1, 1, 1]),
        HonouraryError::InvalidPagination
    );
    // fewer than the page covers: the cursor would pass investors never given
    assert_eq!(
        refused(&open(), &pol, 2, 5, 0, false, DAY, 0, &[1]),
        HonouraryError::InvalidPagination
    );
    // the final page covers the investors that are left, not its size
    assert_eq!(
        refused(&open(), &pol, 2, 9, 0, true, DAY, 0, &[1; 9]),
        HonouraryError::InvalidPagination
    );
    let mut p = open();
    handle_crank_distribution(&mut p, &pol, 2, 9, 0, true, DAY, 0, &[1; 8]).unwrap();
    assert!(p.day_completed);
}

#[test]
fn refuses_a_first_page_without_all_investors() {
    let pol = policy(3000, None, 1, 100, 4);
    assert_eq!(
        refused(&fresh(), &pol, 0, 2, 40, false, DAY, 1000, &[20, 20]),
        HonouraryError::InvalidPagination
    );
    assert_eq!(
        refused(&fresh(), &pol, 0, 2, 100, false, DAY, 1000, &[20; 5]),
        HonouraryError::InvalidPagination
    );
}

#[test]
fn refuses_indices_beyond_the_bitmap() {
    let pol = policy(3000, None, 1, 100, 5000);
    let mut p = open();
    p.pagination_cursor = 2047;
    assert_eq!(
        refused(&p, &pol, 2047, 2, 0, false, DAY, 0, &[1, 1]),
        HonouraryError::InvalidPagination
    );
    // the last index that the bitmap holds is taken
    let out = handle_crank_distribution(&mut p, &pol, 2047, 1, 0, false, DAY, 0, &[1]).unwrap();
    assert_eq!(out.payouts, vec![pay(2047, 30)]);
    assert!(p.is_investor_paid(2047));
    // the end of a page must fit 32 bits
    p.pagination_cursor = u32::MAX;
    assert_eq!(
        refused(&p, &pol, u32::MAX, 1, 0, true, DAY, 0, &[]),
        HonouraryError::InvalidPagination
    );
}

#[test]
fn refuses_a_stated_total_that_is_not_the_sum() {
    let pol = policy(3000, None, 1, 100, 2);
    assert_eq!(
        refused(&fresh(), &pol, 0, 2, 99, true, DAY, 1000, &[60, 40]),
        HonouraryError::InvalidTotalLockedAmount
    );
    assert_eq!(
        refused(&fresh(), &pol, 0, 2, 101, true, DAY, 1000, &[60, 40]),
        HonouraryError::InvalidTotalLockedAmount
    );
}

#[test]
fn fails_closed_when_the_locked_total_overflows() {
    let pol = policy(3000, None, 1, 100, 2);
    assert_eq!(
        refused(&fresh(), &pol, 0, 2, u64::MAX, true, DAY, 1000, &[u64::MAX, 1]),
        HonouraryError::MathOverflow
    );
}

#[test]
fn fails_closed_when_claim_and_dust_overflow() {
    let pol = policy(3000, None, 1, 100, 1);
    let mut p = fresh();
    p.persistent_carry_over = 2;
    assert_eq!(
        refused(&p, &pol, 0, 1, 100, true, DAY, u64::MAX - 1, &[100]),
        HonouraryError::MathOverflow
    );
}

#[test]
fn fails_closed_when_a_payout_overflows() {
    // locked far above the total taken at the start of the cycle
    let pol = policy(10000, None, 1, 1, 10);
    let mut p = open();
    p.current_day_total_claimed = u64::MAX;
    p.current_day_total_locked_all = 1;
    assert_eq!(
        refused(&p, &pol, 2, 1, 0, false, DAY, 0, &[2]),
        HonouraryError::MathOverflow
    );
}

#[test]
fn fails_closed_when_a_lifetime_counter_overflows() {
    let pol = policy(3000, None, 1, 100, 10);
    let mut p = open();
    p.total_investor_distributed = u64::MAX;
    assert_eq!(
        refused(&p, &pol, 2, 1, 0, false, DAY, 0, &[10]),
        HonouraryError::MathOverflow
    );
    let pol = policy(3000, None, 1, 100, 3);
    let mut p = open();
    p.total_distributions = u64::MAX;
    assert_eq!(refused(&p, &pol, 2, 1, 0, true, DAY, 0, &[10]), HonouraryError::MathOverflow);
    let mut p = open();
    p.total_creator_distributed = u64::MAX;
    assert_eq!(refused(&p, &pol, 2, 1, 0, true, DAY, 0, &[10]), HonouraryError::MathOverflow);
}

#[test]
fn refuses_a_page_with_a_paid_investor() {
    let pol = policy(3000, None, 1, 100, 10);
    let mut p = open();
    p.mark_investor_paid(3).unwrap();
    assert_eq!(
        refused(&p, &pol, 2, 2, 0, false, DAY, 0, &[10, 10]),
        HonouraryError::InvestorAlreadyPaid
    );
    // a paid investor is found before an overflow further up the page
    p.current_day_total_locked_all = 1;
    p.current_day_total_claimed = u64::MAX;
    assert_eq!(
        refused(&p, &pol, 2, 2, 0, false, DAY, 0, &[u64::MAX, 10]),
        HonouraryError::InvestorAlreadyPaid
    );
}

#[test]
fn first_page_takes_only_its_own_investors() {
    let pol = policy(5000, None, 1, 100, 5);
    let mut p = fresh();
    let all = [10, 20, 30, 25, 15];
    let out = handle_crank_distribution(&mut p, &pol, 0, 2, 100, false, DAY, 2000, &all).unwrap();
    assert_eq!(out.payouts, vec![pay(0, 100), pay(1, 200)]);
    assert_eq!(out.page.unwrap().investors_paid, 2);
    assert_eq!(p.pagination_cursor, 2);
    assert_eq!(p.current_day_total_locked_all, 100);
    assert!(p.is_investor_paid(0) && p.is_investor_paid(1) && !p.is_investor_paid(2));
    let out = handle_crank_distribution(&mut p, &pol, 2, 2, 0, false, DAY, 0, &[30, 25]).unwrap();
    assert_eq!(out.payouts, vec![pay(2, 300), pay(3, 250)]);
    assert!(out.fees_claimed.is_none());
    let out = handle_crank_distribution(&mut p, &pol, 4, 2, 0, true, DAY, 0, &[15]).unwrap();
    assert_eq!(out.payouts, vec![pay(4, 150)]);
    assert_eq!(out.creator_payout, Some(1000));
    // claimed == investors + creator + dust carried on
    assert_eq!(2000, p.current_day_distributed + 1000 + p.persistent_carry_over);
    assert_eq!(p.pagination_cursor, 6);
    assert_eq!(p.paid_investor_bitmap, [0u8; 256]);
}

#[test]
fn rounding_loss_is_carried_as_nothing_is_dropped() {
    // pool = 1000, three investors with a third each: 333 each, threshold 400
    let pol = policy(10000, None, 400, 3, 3);
    let mut p = fresh();
    let out = handle_crank_distribution(&mut p, &pol, 0, 3, 3, true, DAY, 1000, &[1, 1, 1]).unwrap();
    assert!(out.payouts.is_empty());
    assert_eq!(out.page.unwrap().dust_carried, 999);
    assert_eq!(p.persistent_carry_over, 999);
    assert_eq!(out.creator_payout, Some(1));
    // the dust joins the next claim
    let out =
        handle_crank_distribution(&mut p, &pol, 0, 3, 3, true, 2 * DAY, 201, &[1, 1, 1]).unwrap();
    assert_eq!(p.current_day_total_claimed, 1200);
    assert_eq!(out.payouts, vec![pay(0, 400), pay(1, 400), pay(2, 400)]);
    assert_eq!(out.creator_payout, Some(0));
    assert_eq!(p.persistent_carry_over, 0);
    assert_eq!(p.total_investor_distributed, 1200);
    assert_eq!(p.total_creator_distributed, 1);
}

#[test]
fn carried_dust_below_the_threshold_stays_dust() {
    let pol = policy(10000, None, 1000, 100, 10);
    let mut p = open();
    p.current_day_carry_over = 999;
    // 10000 * 5 / 100 = 500 each: below the threshold
    let out = handle_crank_distribution(&mut p, &pol, 2, 2, 0, false, DAY, 0, &[5, 5]).unwrap();
    assert!(out.payouts.is_empty());
    assert_eq!(p.current_day_carry_over, 999 + 1000);
}

#[test]
fn carried_dust_is_shared_by_the_locked_sum_of_the_page() {
    let pol = policy(10000, None, 1000, 100, 10);
    let mut p = open();
    p.current_day_carry_over = 1001;
    // raw payouts 500 and 1500; shares of 1001 by 1:3 are 250 and 750, one is lost to rounding
    let out = handle_crank_distribution(&mut p, &pol, 2, 2, 0, false, DAY, 0, &[5, 15]).unwrap();
    assert_eq!(out.payouts, vec![pay(3, 2250)]);
    assert_eq!(out.page.unwrap().investors_paid, 1);
    assert_eq!(p.current_day_carry_over, 500 + 250 + 1);
    assert_eq!(p.current_day_distributed, 2250);
    assert!(!p.is_investor_paid(2));
    assert!(p.is_investor_paid(3));
}

#[test]
fn the_threshold_is_taken_on_the_payout_out_of_the_pool() {
    let pol = policy(10000, None, 1000, 100, 10);
    let mut p = open();
    p.current_day_carry_over = 1200;
    // raw payouts 600 each, shares 600 each: what is due is 1200, yet nothing is paid
    let out = handle_crank_distribution(&mut p, &pol, 2, 2, 0, false, DAY, 0, &[6, 6]).unwrap();
    assert!(out.payouts.is_empty());
    assert_eq!(out.page.unwrap().investors_paid, 0);
    assert_eq!(p.current_day_carry_over, 2400);
    assert_eq!(p.current_day_distributed, 0);
}

#[test]
fn carried_dust_with_nothing_locked_on_the_page_stays_dust() {
    let pol = policy(10000, None, 1000, 100, 10);
    let mut p = open();
    p.current_day_carry_over = 5000;
    let out = handle_crank_distribution(&mut p, &pol, 2, 2, 0, false, DAY, 0, &[0, 0]).unwrap();
    assert!(out.payouts.is_empty());
    assert_eq!(p.current_day_carry_over, 5000);
}

#[test]
fn nothing_locked_at_all_leaves_everything_to_the_creator() {
    let pol = policy(3000, None, 1, 100, 2);
    let mut p = fresh();
    let out = handle_crank_distribution(&mut p, &pol, 0, 2, 0, true, DAY, 1000, &[0, 0]).unwrap();
    assert!(out.payouts.is_empty());
    assert_eq!(out.creator_payout, Some(1000));
}

#[test]
fn the_cap_holds_over_the_pages_of_a_cycle() {
    let pol = policy(10000, Some(250), 1, 400, 4);
    let mut p = fresh();
    let all = [100, 100, 100, 100];
    let out = handle_crank_distribution(&mut p, &pol, 0, 2, 400, false, DAY, 400, &all).unwrap();
    assert_eq!(out.payouts, vec![pay(0, 100), pay(1, 100)]);
    let out = handle_crank_distribution(&mut p, &pol, 2, 2, 0, true, DAY, 0, &[100, 100]).unwrap();
    assert_eq!(out.payouts, vec![pay(2, 50)]);
    assert_eq!(p.current_day_distributed, 250);
    assert_eq!(p.persistent_carry_over, 150);
    assert_eq!(out.creator_payout, Some(0));
}

#[test]
fn a_payout_below_the_threshold_only_uses_up_the_cap() {
    let pol = policy(10000, Some(1500), 1000, 100, 10);
    let mut p = open();
    // 1000 each; the second is cut to the 500 that the cap leaves
    let out = handle_crank_distribution(&mut p, &pol, 2, 3, 0, false, DAY, 0, &[10, 10, 10]).unwrap();
    assert_eq!(out.payouts, vec![pay(2, 1000), pay(3, 500)]);
    assert_eq!(p.current_day_distributed, 1500);
    assert_eq!(p.current_day_carry_over, 500 + 1000);
    // an investor for whom the cap leaves nothing is not marked: it was not paid
    assert!(p.is_investor_paid(2) && p.is_investor_paid(3));
    assert!(!p.is_investor_paid(4));
}

#[test]
fn the_cursor_only_moves_forward() {
    let pol = policy(3000, None, 1, 100, 9);
    let mut p = fresh();
    let all = [10; 9];
    let mut last = 0;
    let mut start = 0;
    for size in [2u32, 3, 1, 3] {
        let is_final = start + size >= 9;
        let locked: Vec<u64> =
            if start == 0 { all.to_vec() } else { vec![10; size as usize] };
        handle_crank_distribution(&mut p, &pol, start, size, 90, is_final, DAY, 900, &locked)
            .unwrap();
        assert!(p.pagination_cursor >= last);
        assert_eq!(p.pagination_cursor, start + size);
        last = p.pagination_cursor;
        start += size;
    }
    assert!(p.day_completed);
}

#[test]
fn replay_after_a_later_page_is_a_no_op_too() {
    let pol = policy(3000, None, 1, 100, 9);
    let mut p = fresh();
    handle_crank_distribution(&mut p, &pol, 0, 3, 90, false, DAY, 900, &[10; 9]).unwrap();
    handle_crank_distribution(&mut p, &pol, 3, 3, 0, false, DAY, 0, &[10; 3]).unwrap();
    let before = p;
    let out = handle_crank_distribution(&mut p, &pol, 3, 3, 0, false, DAY, 0, &[10; 3]).unwrap();
    assert!(out.replayed);
    assert!(same(&p, &before));
    // the same start with another size is a replay too
    let out = handle_crank_distribution(&mut p, &pol, 3, 50, 0, true, DAY, 0, &[]).unwrap();
    assert!(out.replayed);
    assert!(same(&p, &before));
    // an earlier page is no replay, whatever its size
    for size in [2u32, 3, 6, 50] {
        assert_eq!(
            refused(&p, &pol, 0, size, 0, false, DAY, 0, &[10; 2]),
            HonouraryError::InvalidPaginationSequence
        );
    }
}

#[test]
fn over_distribution_leaves_the_creator_nothing() {
    // later reads exceed the total taken when the cycle was opened
    let pol = policy(10000, None, 1, 100, 3);
    let mut p = open();
    p.current_day_distributed = 9000;
    let out = handle_crank_distribution(&mut p, &pol, 2, 1, 0, true, DAY, 0, &[50]).unwrap();
    assert_eq!(out.payouts, vec![pay(2, 5000)]);
    assert_eq!(out.creator_payout, Some(0));
    assert_eq!(p.current_day_distributed, 14000);
}
