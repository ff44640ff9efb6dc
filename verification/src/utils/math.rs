//! The amounts of a distribution: shares, payouts, dust and the cap.
//!
//! Every ratio is computed in 128 bits and rounded down.

use vstd::prelude::*;
use vstd::arithmetic::div_mod::lemma_div_is_ordered;
use vstd::arithmetic::div_mod::lemma_div_pos_is_pos;
use crate::constants::BASIS_POINTS_DIVISOR;
use crate::error::HonouraryError;

verus! {

/// The share of claimed fees that investors may receive, in basis points:
/// the locked fraction of the reference allocation, at most the whole and at
/// most the configured share; nothing where the allocation is zero.
pub open spec fn eligible_share_bps(locked_total: int, y0_total_allocation: int, max_bps: int) -> int {
    if y0_total_allocation == 0 {
        0
    } else {
        let locked_bps = locked_total * 10000 / y0_total_allocation;
        let capped = if locked_bps < 10000 { locked_bps } else { 10000 };
        if max_bps < capped { max_bps } else { capped }
    }
}

/// The part `bps` basis points of `claimed`, rounded down.
pub open spec fn investor_fee_amount(claimed: int, bps: int) -> int {
    claimed * bps / 10000
}

/// One investor's part of `total_fee` by locked amount, rounded down;
/// nothing where nothing is locked at all.
pub open spec fn individual_payout(total_fee: int, locked: int, total_locked: int) -> int {
    if total_locked == 0 {
        0
    } else {
        total_fee * locked / total_locked
    }
}

/// What is left for the creator: the claim less what investors received and
/// less the dust carried on, never below zero.
pub open spec fn creator_remainder(claimed: int, distributed: int, carry_over: int) -> int {
    if claimed - distributed - carry_over > 0 {
        claimed - distributed - carry_over
    } else {
        0
    }
}

/// What the cap leaves room for: the cap less what was distributed, never
/// below zero.
pub open spec fn cap_headroom(cap: int, distributed: int) -> int {
    if cap > distributed { cap - distributed } else { 0 }
}

/// The part of `proposed` that may be paid once `distributed` has been paid
/// out under `daily_cap`.
pub open spec fn capped_payout(distributed: int, proposed: int, daily_cap: Option<u64>) -> int {
    match daily_cap {
        None => proposed,
        Some(cap) => {
            let room = cap_headroom(cap as int, distributed);
            if proposed < room { proposed } else { room }
        },
    }
}

/// Eligible investor share in basis points. Never fails.
pub fn calculate_eligible_investor_share_bps(
    locked_total: u64,
    y0_total_allocation: u64,
    max_investor_share_bps: u16,
) -> (result: Result<u16, HonouraryError>)
    ensures
        result == Ok::<u16, HonouraryError>(
            eligible_share_bps(
                locked_total as int,
                y0_total_allocation as int,
                max_investor_share_bps as int,
            ) as u16,
        ),
        0 <= eligible_share_bps(
            locked_total as int,
            y0_total_allocation as int,
            max_investor_share_bps as int,
        ) <= 10000,
{
    if y0_total_allocation == 0 {
        return Ok(0);
    }
    assert(locked_total as int * 10000 <= u128::MAX) by (nonlinear_arith)
        requires
            locked_total <= u64::MAX,
    ;
    let product: u128 = (locked_total as u128) * (BASIS_POINTS_DIVISOR as u128);
    let locked_fraction: u128 = product / (y0_total_allocation as u128);
    let locked_fraction_bps: u16 = if locked_fraction < 10000 {
        locked_fraction as u16
    } else {
        10000
    };
    if max_investor_share_bps < locked_fraction_bps {
        Ok(max_investor_share_bps)
    } else {
        Ok(locked_fraction_bps)
    }
}

/// The investors' pool out of the claimed fees. `MathOverflow` exactly when
/// the pool does not fit 64 bits, which takes a share above the whole.
pub fn calculate_investor_fee_amount(claimed_quote: u64, eligible_investor_share_bps: u16) -> (result:
    Result<u64, HonouraryError>)
    ensures
        investor_fee_amount(claimed_quote as int, eligible_investor_share_bps as int) <= u64::MAX
            ==> result == Ok::<u64, HonouraryError>(
            investor_fee_amount(claimed_quote as int, eligible_investor_share_bps as int) as u64,
        ),
        investor_fee_amount(claimed_quote as int, eligible_investor_share_bps as int) > u64::MAX
            ==> result == Err::<u64, HonouraryError>(HonouraryError::MathOverflow),
        eligible_investor_share_bps <= 10000 ==> result is Ok && result->Ok_0 <= claimed_quote,
{
    assert(claimed_quote as int * eligible_investor_share_bps as int <= u128::MAX)
        by (nonlinear_arith)
        requires
            claimed_quote <= u64::MAX,
            eligible_investor_share_bps <= u16::MAX,
    ;
    let product: u128 = (claimed_quote as u128) * (eligible_investor_share_bps as u128);
    let amount: u128 = product / (BASIS_POINTS_DIVISOR as u128);
    proof {
        if eligible_investor_share_bps <= 10000 {
            lemma_share_within_claim(claimed_quote as int, eligible_investor_share_bps as int);
        }
    }
    if amount > u64::MAX as u128 {
        Err(HonouraryError::MathOverflow)
    } else {
        Ok(amount as u64)
    }
}

/// A share of at most the whole is at most the claim.
pub proof fn lemma_share_within_claim(claimed: int, bps: int)
    requires
        0 <= claimed,
        0 <= bps <= 10000,
    ensures
        0 <= investor_fee_amount(claimed, bps) <= claimed,
{
    assert(0 <= claimed * bps <= claimed * 10000) by (nonlinear_arith)
        requires
            0 <= claimed,
            0 <= bps <= 10000,
    ;
    lemma_div_is_ordered(claimed * bps, claimed * 10000, 10000);
    lemma_div_pos_is_pos(claimed * bps, 10000);
    assert(claimed * 10000 / 10000 == claimed) by (nonlinear_arith);
}

/// One investor's payout. `MathOverflow` exactly when it does not fit 64
/// bits, which takes a locked amount above the total.
pub fn calculate_individual_payout(total_investor_fee: u64, individual_locked: u64, total_locked: u64) -> (result:
    Result<u64, HonouraryError>)
    ensures
        individual_payout(total_investor_fee as int, individual_locked as int, total_locked as int)
            <= u64::MAX ==> result == Ok::<u64, HonouraryError>(
            individual_payout(
                total_investor_fee as int,
                individual_locked as int,
                total_locked as int,
            ) as u64,
        ),
        individual_payout(total_investor_fee as int, individual_locked as int, total_locked as int)
            > u64::MAX ==> result == Err::<u64, HonouraryError>(HonouraryError::MathOverflow),
        0 <= individual_payout(
            total_investor_fee as int,
            individual_locked as int,
            total_locked as int,
        ),
{
    if total_locked == 0 {
        return Ok(0);
    }
    assert(0 <= total_investor_fee as int * individual_locked as int <= u128::MAX)
        by (nonlinear_arith)
        requires
            0 <= total_investor_fee <= u64::MAX,
            0 <= individual_locked <= u64::MAX,
    ;
    let product: u128 = (total_investor_fee as u128) * (individual_locked as u128);
    let amount: u128 = product / (total_locked as u128);
    proof {
        lemma_div_pos_is_pos(
            total_investor_fee as int * individual_locked as int,
            total_locked as int,
        );
    }
    if amount > u64::MAX as u128 {
        Err(HonouraryError::MathOverflow)
    } else {
        Ok(amount as u64)
    }
}

/// Splits an amount into what is paid and what becomes dust: all of it is
/// paid from the threshold up, all of it is dust below.
pub fn apply_dust_threshold(calculated_amount: u64, min_payout_threshold: u64) -> (result: (u64, u64))
    ensures
        calculated_amount >= min_payout_threshold ==> result == (calculated_amount, 0u64),
        calculated_amount < min_payout_threshold ==> result == (0u64, calculated_amount),
{
    if calculated_amount >= min_payout_threshold {
        (calculated_amount, 0)
    } else {
        (0, calculated_amount)
    }
}

/// The creator's remainder of a cycle. Never fails.
pub fn calculate_creator_remainder(total_claimed: u64, total_investor_distributed: u64, carry_over: u64) -> (result:
    Result<u64, HonouraryError>)
    ensures
        result == Ok::<u64, HonouraryError>(
            creator_remainder(
                total_claimed as int,
                total_investor_distributed as int,
                carry_over as int,
            ) as u64,
        ),
{
    let after_investors: u64 = if total_claimed > total_investor_distributed {
        total_claimed - total_investor_distributed
    } else {
        0
    };
    if after_investors > carry_over {
        Ok(after_investors - carry_over)
    } else {
        Ok(0)
    }
}

/// The payout that the cap admits, for any amounts.
pub fn payout_under_cap(already_distributed: u64, proposed_distribution: u64, daily_cap: Option<u64>) -> (allowed:
    u64)
    ensures
        allowed == capped_payout(already_distributed as int, proposed_distribution as int, daily_cap),
        allowed <= proposed_distribution,
        daily_cap is Some && already_distributed <= daily_cap->Some_0 ==> already_distributed
            + allowed <= daily_cap->Some_0,
{
    match daily_cap {
        None => proposed_distribution,
        Some(cap) => {
            let room: u64 = if cap > already_distributed {
                cap - already_distributed
            } else {
                0
            };
            if proposed_distribution < room {
                proposed_distribution
            } else {
                room
            }
        },
    }
}

/// The payout that the cap admits. `MathOverflow` exactly when there is a
/// cap and the sum of what was distributed and what is proposed does not fit
/// 64 bits.
pub fn check_daily_cap(already_distributed: u64, proposed_distribution: u64, daily_cap: Option<u64>) -> (result:
    Result<u64, HonouraryError>)
    ensures
        daily_cap is Some && already_distributed + proposed_distribution > u64::MAX ==> result
            == Err::<u64, HonouraryError>(HonouraryError::MathOverflow),
        !(daily_cap is Some && already_distributed + proposed_distribution > u64::MAX) ==> result
            == Ok::<u64, HonouraryError>(
            capped_payout(already_distributed as int, proposed_distribution as int, daily_cap) as u64,
        ),
{
    if daily_cap.is_some() && proposed_distribution > u64::MAX - already_distributed {
        return Err(HonouraryError::MathOverflow);
    }
    Ok(payout_under_cap(already_distributed, proposed_distribution, daily_cap))
}

} // verus!
