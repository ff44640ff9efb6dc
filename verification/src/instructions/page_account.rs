//! What holds of the running account of a page, whatever its investors.
//!
//! Each fact is shown for the account after any number of investors, by
//! induction over them.

use vstd::prelude::*;
use crate::instructions::crank_distribution::investor_amount;
use crate::instructions::crank_distribution::tally_after;
use crate::instructions::crank_distribution::tally_step;
use crate::instructions::crank_distribution::InvestorPayout;
use crate::instructions::crank_distribution::PageTally;
use crate::instructions::crank_distribution::PageTerms;
use crate::utils::math::capped_payout;
use crate::utils::math::individual_payout;
use crate::utils::shares::lemma_locked_sum_bounds;
use crate::utils::shares::lemma_locked_sum_prefix;
use crate::utils::shares::lemma_payout_not_negative;
use crate::utils::shares::lemma_payouts_sum_within_whole;
use crate::utils::shares::lemma_share_within_whole;
use crate::utils::shares::locked_sum;
use crate::utils::shares::lemma_payouts_sum_take;
use crate::utils::shares::payouts_sum;

verus! {

/// The sum of the amounts of the payouts.
pub open spec fn payout_total(payouts: Seq<InvestorPayout>) -> int
    decreases payouts.len(),
{
    if payouts.len() == 0 {
        0
    } else {
        payout_total(payouts.drop_last()) + payouts.last().amount
    }
}

/// Whether the terms of a page hold no negative amount and its investors
/// have indices of 32 bits.
pub open spec fn terms_valid(terms: PageTerms, covered: nat) -> bool {
    &&& 0 <= terms.page_start
    &&& terms.page_start + covered <= u32::MAX
    &&& 0 <= terms.pool
    &&& 0 <= terms.total_locked
    &&& 0 <= terms.carry_in
    &&& 0 <= terms.page_locked
    &&& 0 <= terms.threshold
}

/// Whether an account can start a page: nothing in it is negative and it
/// holds no payout and no mark yet.
pub open spec fn start_valid(start: PageTally) -> bool {
    &&& 0 <= start.distributed <= u64::MAX
    &&& 0 <= start.dust
    &&& start.shared == 0
    &&& start.payouts == Seq::<InvestorPayout>::empty()
    &&& start.marked == Set::<int>::empty()
}

/// Nothing is lost on a page: what is distributed and what is dust grow
/// together by exactly the amounts due to the investors, and what is
/// distributed grows by exactly the payouts.
pub proof fn lemma_tally_accounts(terms: PageTerms, start: PageTally, page: Seq<u64>, k: nat)
    requires
        k <= page.len(),
        tally_after(terms, start, page, k) is Some,
        start.payouts == Seq::<InvestorPayout>::empty(),
        terms_valid(terms, k),
        0 <= start.distributed,
    ensures
        ({
            let t = tally_after(terms, start, page, k)->Some_0;
            &&& t.distributed + t.dust == start.distributed + start.dust + payouts_sum(
                terms.pool,
                page.take(k as int),
                terms.total_locked,
            ) + payouts_sum(terms.carry_in, page.take(k as int), terms.page_locked)
            &&& t.shared == start.shared + payouts_sum(
                terms.carry_in,
                page.take(k as int),
                terms.page_locked,
            )
            &&& t.distributed == start.distributed + payout_total(t.payouts)
            &&& t.distributed >= start.distributed
        }),
    decreases k,
{
    if k > 0 {
        lemma_tally_accounts(terms, start, page, (k - 1) as nat);
        lemma_payouts_sum_take(terms.pool, page, terms.total_locked, k - 1);
        lemma_payouts_sum_take(terms.carry_in, page, terms.page_locked, k - 1);
        let before = tally_after(terms, start, page, (k - 1) as nat)->Some_0;
        let locked = page[k - 1] as int;
        lemma_payout_not_negative(terms.pool, locked, terms.total_locked);
        lemma_payout_not_negative(terms.carry_in, locked, terms.page_locked);
        assert(tally_after(terms, start, page, k) == tally_step(terms, before, k - 1, locked));
        let after = tally_after(terms, start, page, k)->Some_0;
        let amount = investor_amount(terms, locked);
        let allowed = capped_payout(before.distributed, amount, terms.daily_cap);
        if individual_payout(terms.pool, locked, terms.total_locked) >= terms.threshold && allowed
            > 0 {
            assert(after.payouts.drop_last() =~= before.payouts);
        }
    } else {
        assert(page.take(0) =~= Seq::<u64>::empty());
    }
}

/// What is distributed stays within the cap, if it started within it.
pub proof fn lemma_tally_within_cap(terms: PageTerms, start: PageTally, page: Seq<u64>, k: nat)
    requires
        k <= page.len(),
        tally_after(terms, start, page, k) is Some,
        terms.daily_cap is Some,
        start.distributed <= terms.daily_cap->Some_0,
    ensures
        tally_after(terms, start, page, k)->Some_0.distributed <= terms.daily_cap->Some_0,
    decreases k,
{
    if k > 0 {
        lemma_tally_within_cap(terms, start, page, (k - 1) as nat);
    }
}

/// Whether one of the payouts goes to the investor `index`.
pub open spec fn pays_investor(payouts: Seq<InvestorPayout>, index: int) -> bool {
    exists|i: int| 0 <= i < payouts.len() && (#[trigger] payouts[i]).investor_index == index
}

/// Every payout of a page goes to an investor that the page covers and
/// marks, is more than nothing, and reaches the threshold unless it uses up
/// the cap; there are no more payouts than investors; the payouts come in index order, no investor twice; and the
/// page marks no investor that it does not pay.
pub proof fn lemma_tally_payouts(terms: PageTerms, start: PageTally, page: Seq<u64>, k: nat)
    requires
        k <= page.len(),
        tally_after(terms, start, page, k) is Some,
        terms_valid(terms, k),
        start_valid(start),
    ensures
        ({
            let t = tally_after(terms, start, page, k)->Some_0;
            &&& forall|i: int|
                0 <= i < t.payouts.len() ==> {
                    &&& terms.page_start <= (#[trigger] t.payouts[i]).investor_index
                        < terms.page_start + k
                    &&& t.payouts[i].amount > 0
                    &&& t.marked.contains(t.payouts[i].investor_index as int)
                    &&& (t.payouts[i].amount >= terms.threshold || (terms.daily_cap is Some
                        && t.distributed == terms.daily_cap->Some_0))
                }
            &&& forall|i: int, j: int|
                0 <= i < j < t.payouts.len() ==> (#[trigger] t.payouts[i]).investor_index < (
                #[trigger] t.payouts[j]).investor_index
            &&& forall|index: int|
                t.marked.contains(index) ==> terms.page_start <= index < terms.page_start + k
                    && pays_investor(t.payouts, index)
            &&& start.distributed <= t.distributed <= u64::MAX
            &&& start.dust <= t.dust
            &&& t.payouts.len() <= k
        }),
    decreases k,
{
    if k > 0 {
        lemma_tally_payouts(terms, start, page, (k - 1) as nat);
        let before = tally_after(terms, start, page, (k - 1) as nat)->Some_0;
        let locked = page[k - 1] as int;
        lemma_payout_not_negative(terms.pool, locked, terms.total_locked);
        lemma_payout_not_negative(terms.carry_in, locked, terms.page_locked);
        assert(tally_after(terms, start, page, k) == tally_step(terms, before, k - 1, locked));
        let after = tally_after(terms, start, page, k)->Some_0;
        let amount = investor_amount(terms, locked);
        let allowed = capped_payout(before.distributed, amount, terms.daily_cap);
        assert(0 <= amount);
        if individual_payout(terms.pool, locked, terms.total_locked) >= terms.threshold {
            assert(0 <= allowed <= amount);
            if allowed > 0 {
                assert(after.payouts.drop_last() =~= before.payouts);
                assert(after.payouts.last().investor_index == terms.page_start + k - 1);
                assert(after.payouts.last().amount == allowed);
                assert forall|i: int| 0 <= i < after.payouts.len() implies {
                    &&& terms.page_start <= (#[trigger] after.payouts[i]).investor_index
                        < terms.page_start + k
                    &&& after.payouts[i].amount > 0
                    &&& after.marked.contains(after.payouts[i].investor_index as int)
                    &&& (after.payouts[i].amount >= terms.threshold || (terms.daily_cap is Some
                        && after.distributed == terms.daily_cap->Some_0))
                } by {
                    if i < before.payouts.len() {
                        assert(after.payouts[i] == before.payouts[i]);
                    }
                }
                assert forall|index: int| after.marked.contains(index) implies terms.page_start
                    <= index < terms.page_start + k && pays_investor(after.payouts, index) by {
                    if index == terms.page_start + k - 1 {
                        assert(after.payouts[after.payouts.len() - 1].investor_index == index);
                    } else {
                        assert(before.marked.contains(index));
                        let i = choose|i: int|
                            0 <= i < before.payouts.len() && (
                            #[trigger] before.payouts[i]).investor_index == index;
                        assert(after.payouts[i] == before.payouts[i]);
                    }
                }
                assert forall|i: int, j: int| 0 <= i < j < after.payouts.len() implies (
                #[trigger] after.payouts[i]).investor_index < (
                #[trigger] after.payouts[j]).investor_index by {
                    assert(after.payouts[i] == before.payouts[i]);
                    if j < before.payouts.len() {
                        assert(after.payouts[j] == before.payouts[j]);
                    }
                }
            } else {
                assert(after.payouts == before.payouts);
            }
        }
    }
}

/// Once an amount does not fit, no later investor mends it.
pub proof fn lemma_tally_overflow_stays(terms: PageTerms, start: PageTally, page: Seq<u64>, k: nat, n: nat)
    requires
        k <= n,
        tally_after(terms, start, page, k) is None,
    ensures
        tally_after(terms, start, page, n) is None,
    decreases n,
{
    if k < n {
        lemma_tally_overflow_stays(terms, start, page, k, (n - 1) as nat);
    }
}

/// After `j` investors of a page, the share of the next one still fits what
/// is left of the carried-in dust.
pub proof fn lemma_tally_shared_step(terms: PageTerms, page: Seq<u64>, j: int)
    requires
        0 <= j < page.len(),
        0 <= terms.carry_in,
        terms.page_locked == locked_sum(page),
    ensures
        0 <= individual_payout(terms.carry_in, page[j] as int, terms.page_locked),
        payouts_sum(terms.carry_in, page.take(j), terms.page_locked) + individual_payout(
            terms.carry_in,
            page[j] as int,
            terms.page_locked,
        ) <= terms.carry_in,
        0 <= payouts_sum(terms.carry_in, page.take(j), terms.page_locked),
{
    lemma_locked_sum_prefix(page, j + 1);
    lemma_locked_sum_prefix(page, j);
    lemma_payouts_sum_take(terms.carry_in, page, terms.page_locked, j);
    lemma_payouts_sum_within_whole(terms.carry_in, page.take(j + 1), terms.page_locked);
    lemma_payouts_sum_within_whole(terms.carry_in, page.take(j), terms.page_locked);
    lemma_locked_sum_bounds(page);
    lemma_share_within_whole(terms.carry_in, page[j] as int, terms.page_locked);
}

} // verus!
