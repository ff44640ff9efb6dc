//! Sums of locked amounts and of the pro-rata shares taken by them.
//!
//! Rounding every share down can only lose value: the shares of amounts
//! that together do not exceed the total never add up to more than the
//! whole that is shared out.

use vstd::prelude::*;
use vstd::arithmetic::div_mod::lemma_div_is_ordered;
use vstd::arithmetic::div_mod::lemma_div_pos_is_pos;
use vstd::arithmetic::div_mod::lemma_fundamental_div_mod;
use vstd::arithmetic::div_mod::lemma_mod_bound;
use vstd::arithmetic::div_mod::lemma_fundamental_div_mod_converse;
use crate::utils::math::individual_payout;

verus! {

/// The sum of the amounts.
pub open spec fn locked_sum(amounts: Seq<u64>) -> int
    decreases amounts.len(),
{
    if amounts.len() == 0 {
        0
    } else {
        locked_sum(amounts.drop_last()) + amounts.last()
    }
}

/// The sum of the shares of `whole` that the amounts take out of `total`,
/// each rounded down.
pub open spec fn payouts_sum(whole: int, amounts: Seq<u64>, total: int) -> int
    decreases amounts.len(),
{
    if amounts.len() == 0 {
        0
    } else {
        payouts_sum(whole, amounts.drop_last(), total) + individual_payout(
            whole,
            amounts.last() as int,
            total,
        )
    }
}

/// A sum of amounts is not negative, and no amount exceeds it.
pub proof fn lemma_locked_sum_bounds(amounts: Seq<u64>)
    ensures
        0 <= locked_sum(amounts),
        forall|i: int| 0 <= i < amounts.len() ==> amounts[i] <= locked_sum(amounts),
    decreases amounts.len(),
{
    if amounts.len() > 0 {
        lemma_locked_sum_bounds(amounts.drop_last());
        assert forall|i: int| 0 <= i < amounts.len() implies amounts[i] <= locked_sum(amounts) by {
            if i < amounts.len() - 1 {
                assert(amounts.drop_last()[i] == amounts[i]);
            }
        }
    }
}

/// One more amount adds itself to the sum of those before it.
pub proof fn lemma_locked_sum_take(amounts: Seq<u64>, k: int)
    requires
        0 <= k < amounts.len(),
    ensures
        locked_sum(amounts.take(k + 1)) == locked_sum(amounts.take(k)) + amounts[k],
{
    assert(amounts.take(k + 1).drop_last() =~= amounts.take(k));
}

/// The sum of a prefix is at most the sum of the whole sequence.
pub proof fn lemma_locked_sum_prefix(amounts: Seq<u64>, k: int)
    requires
        0 <= k <= amounts.len(),
    ensures
        0 <= locked_sum(amounts.take(k)) <= locked_sum(amounts),
    decreases amounts.len() - k,
{
    lemma_locked_sum_bounds(amounts.take(k));
    if k == amounts.len() {
        assert(amounts.take(k) =~= amounts);
    } else {
        lemma_locked_sum_take(amounts, k);
        lemma_locked_sum_prefix(amounts, k + 1);
    }
}

/// One more amount adds its share to the shares of those before it.
pub proof fn lemma_payouts_sum_take(whole: int, amounts: Seq<u64>, total: int, k: int)
    requires
        0 <= k < amounts.len(),
    ensures
        payouts_sum(whole, amounts.take(k + 1), total) == payouts_sum(
            whole,
            amounts.take(k),
            total,
        ) + individual_payout(whole, amounts[k] as int, total),
{
    assert(amounts.take(k + 1).drop_last() =~= amounts.take(k));
}

/// Rounding two shares down loses at least as much as rounding their sum.
pub proof fn lemma_floor_shares_add(whole: int, a: int, b: int, total: int)
    requires
        0 <= whole,
        0 <= a,
        0 <= b,
        0 < total,
    ensures
        whole * a / total + whole * b / total <= whole * (a + b) / total,
        0 <= whole * a / total,
{
    let x = whole * a;
    let y = whole * b;
    assert(0 <= x && 0 <= y && whole * (a + b) == x + y) by (nonlinear_arith)
        requires
            0 <= whole,
            0 <= a,
            0 <= b,
            x == whole * a,
            y == whole * b,
    ;
    lemma_fundamental_div_mod(x, total);
    lemma_fundamental_div_mod(y, total);
    lemma_mod_bound(x, total);
    lemma_mod_bound(y, total);
    lemma_div_pos_is_pos(x, total);
    let q = x / total + y / total;
    let low = total * q;
    assert(low == total * (x / total) + total * (y / total)) by (nonlinear_arith)
        requires
            low == total * q,
            q == x / total + y / total,
    ;
    assert(low <= x + y);
    lemma_div_is_ordered(low, x + y, total);
    lemma_fundamental_div_mod_converse(low, total, q, 0);
}

/// No share is negative.
pub proof fn lemma_payout_not_negative(whole: int, part: int, total: int)
    requires
        0 <= whole,
        0 <= part,
        0 <= total,
    ensures
        0 <= individual_payout(whole, part, total),
{
    if total != 0 {
        assert(0 <= whole * part) by (nonlinear_arith)
            requires
                0 <= whole,
                0 <= part,
        ;
        lemma_div_pos_is_pos(whole * part, total);
    }
}

/// A share of a part is at most the whole when the part is at most the
/// total.
pub proof fn lemma_share_within_whole(whole: int, part: int, total: int)
    requires
        0 <= whole,
        0 <= part <= total,
    ensures
        0 <= individual_payout(whole, part, total) <= whole,
{
    if total != 0 {
        assert(0 <= whole * part <= whole * total) by (nonlinear_arith)
            requires
                0 <= whole,
                0 <= part <= total,
        ;
        lemma_div_pos_is_pos(whole * part, total);
        lemma_div_is_ordered(whole * part, whole * total, total);
        lemma_fundamental_div_mod_converse(whole * total, total, whole, 0);
    }
}

/// The shares of amounts add up to at most the share of their sum.
pub proof fn lemma_payouts_sum_bounded(whole: int, amounts: Seq<u64>, total: int)
    requires
        0 <= whole,
        0 <= total,
    ensures
        0 <= payouts_sum(whole, amounts, total) <= individual_payout(
            whole,
            locked_sum(amounts),
            total,
        ),
    decreases amounts.len(),
{
    if amounts.len() > 0 {
        lemma_payouts_sum_bounded(whole, amounts.drop_last(), total);
        lemma_locked_sum_bounds(amounts.drop_last());
        if total != 0 {
            lemma_floor_shares_add(
                whole,
                locked_sum(amounts.drop_last()),
                amounts.last() as int,
                total,
            );
            lemma_floor_shares_add(whole, amounts.last() as int, 0, total);
        }
    } else {
        if total != 0 {
            assert(whole * 0 / total == 0) by (nonlinear_arith)
                requires
                    total > 0,
            ;
        }
    }
}

/// The shares of amounts that together do not exceed the total add up to at
/// most the whole.
pub proof fn lemma_payouts_sum_within_whole(whole: int, amounts: Seq<u64>, total: int)
    requires
        0 <= whole,
        locked_sum(amounts) <= total,
    ensures
        0 <= payouts_sum(whole, amounts, total) <= whole,
{
    lemma_locked_sum_bounds(amounts);
    lemma_payouts_sum_bounded(whole, amounts, total);
    lemma_share_within_whole(whole, locked_sum(amounts), total);
}

} // verus!
