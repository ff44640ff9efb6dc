//! What holds of a whole cycle: of any run of accepted calls that stays
//! within one cycle.

use vstd::prelude::*;
use crate::instructions::crank_distribution::InvestorPayout;
use crate::instructions::crank_guarantees::covered_page;
use crate::instructions::crank_guarantees::crank_call;
use crate::instructions::crank_guarantees::cycle_pool;
use crate::instructions::crank_guarantees::lemma_pool_within_claim;
use crate::instructions::crank_guarantees::lemma_crank_call;
use crate::instructions::crank_guarantees::Call;
use crate::instructions::page_account::pays_investor;
use crate::instructions::page_account::payout_total;
use crate::state::policy::Policy;
use crate::state::progress::ProgressView;
use crate::utils::math::individual_payout;
use crate::utils::shares::lemma_floor_shares_add;
use crate::utils::shares::lemma_locked_sum_bounds;
use crate::utils::shares::lemma_payouts_sum_bounded;
use crate::utils::shares::lemma_share_within_whole;
use crate::utils::shares::locked_sum;

verus! {

/// Where a run of calls stands: the record, what the calls asked to pay to
/// investors, in order, and what they asked to pay to the creator.
pub struct CycleRun {
    pub record: ProgressView,
    pub payouts: Seq<InvestorPayout>,
    pub creator_paid: int,
}

/// The run of `calls` from the record `p`, each call on the record that the
/// one before left: `None` where a call is refused, or where a call comes
/// after the one that closed the cycle. All payouts of a run thus belong to
/// one cycle: the one that `p` is in, or the one that the first call opens.
pub open spec fn run_cycle(p: ProgressView, policy: Policy, calls: Seq<Call>) -> Option<CycleRun>
    decreases calls.len(),
{
    if calls.len() == 0 {
        Some(CycleRun { record: p, payouts: Seq::empty(), creator_paid: 0 })
    } else {
        match run_cycle(p, policy, calls.drop_last()) {
            None => None,
            Some(run) => {
                if calls.len() > 1 && run.record.day_completed {
                    None
                } else {
                    match crank_call(run.record, policy, calls.last()) {
                        Err(_) => None,
                        Ok((record, outcome)) => Some(
                            CycleRun {
                                record: record,
                                payouts: run.payouts + outcome.payouts,
                                creator_paid: run.creator_paid + match outcome.creator_payout {
                                    Some(amount) => amount as int,
                                    None => 0,
                                },
                            },
                        ),
                    }
                }
            },
        }
    }
}

/// The payouts of two runs, one after the other, add up.
pub proof fn lemma_payout_total_add(first: Seq<InvestorPayout>, second: Seq<InvestorPayout>)
    ensures
        payout_total(first + second) == payout_total(first) + payout_total(second),
    decreases second.len(),
{
    if second.len() == 0 {
        assert(first + second =~= first);
    } else {
        lemma_payout_total_add(first, second.drop_last());
        assert((first + second).drop_last() =~= first + second.drop_last());
    }
}

/// Whether no two of the payouts go to the same investor.
pub open spec fn pays_nobody_twice(payouts: Seq<InvestorPayout>) -> bool {
    forall|i: int, j: int|
        0 <= i < j < payouts.len() ==> (#[trigger] payouts[i]).investor_index != (
        #[trigger] payouts[j]).investor_index
}

/// No double payment: over all calls of a cycle, no investor is paid twice.
/// While the cycle is open, every investor that it has paid is marked.
pub proof fn cycle_pays_nobody_twice(p: ProgressView, policy: Policy, calls: Seq<Call>)
    requires
        run_cycle(p, policy, calls) is Some,
    ensures
        pays_nobody_twice(run_cycle(p, policy, calls)->Some_0.payouts),
        !run_cycle(p, policy, calls)->Some_0.record.day_completed ==> forall|i: int|
            0 <= i < run_cycle(p, policy, calls)->Some_0.payouts.len() ==> run_cycle(
                p,
                policy,
                calls,
            )->Some_0.record.paid.contains(
                (#[trigger] run_cycle(p, policy, calls)->Some_0.payouts[i]).investor_index as int,
            ),
    decreases calls.len(),
{
    if calls.len() > 0 {
        cycle_pays_nobody_twice(p, policy, calls.drop_last());
        let before = run_cycle(p, policy, calls.drop_last())->Some_0;
        let call = calls.last();
        lemma_crank_call(before.record, policy, call);
        let record = crank_call(before.record, policy, call)->Ok_0.0;
        let outcome = crank_call(before.record, policy, call)->Ok_0.1;
        let after = run_cycle(p, policy, calls)->Some_0;
        assert(after.payouts == before.payouts + outcome.payouts);
        let old_len = before.payouts.len() as int;
        if outcome.replayed {
            assert(outcome.payouts.len() == 0);
            assert(after.payouts =~= before.payouts);
        } else {
            if before.record.day_completed {
                // only the first call of a run finds the cycle closed
                assert(calls.len() == 1);
                assert(calls.drop_last().len() == 0);
                assert(before.payouts.len() == 0);
            }
            assert forall|i: int, j: int| 0 <= i < j < after.payouts.len() implies (
            #[trigger] after.payouts[i]).investor_index != (
            #[trigger] after.payouts[j]).investor_index by {
                if j < old_len {
                    assert(after.payouts[i] == before.payouts[i]);
                    assert(after.payouts[j] == before.payouts[j]);
                } else if i < old_len {
                    assert(after.payouts[i] == before.payouts[i]);
                    assert(after.payouts[j] == outcome.payouts[j - old_len]);
                    assert(before.record.paid.contains(before.payouts[i].investor_index as int));
                } else {
                    assert(after.payouts[i] == outcome.payouts[i - old_len]);
                    assert(after.payouts[j] == outcome.payouts[j - old_len]);
                }
            }
            if !record.day_completed {
                assert forall|i: int| 0 <= i < after.payouts.len() implies record.paid.contains(
                    (#[trigger] after.payouts[i]).investor_index as int,
                ) by {
                    if i < old_len {
                        assert(after.payouts[i] == before.payouts[i]);
                        assert(before.record.paid.contains(
                            before.payouts[i].investor_index as int,
                        ));
                    } else {
                        assert(after.payouts[i] == outcome.payouts[i - old_len]);
                    }
                }
            }
        }
    }
}

/// The marks are the paid: while a cycle that a run opened is open, an
/// investor is marked as paid if and only if one of the payouts of the run
/// went to that investor.
pub proof fn cycle_marks_exactly_the_paid(p: ProgressView, policy: Policy, calls: Seq<Call>)
    requires
        run_cycle(p, policy, calls) is Some,
        p.day_completed,
        calls.len() > 0,
        !run_cycle(p, policy, calls)->Some_0.record.day_completed,
    ensures
        forall|index: int|
            run_cycle(p, policy, calls)->Some_0.record.paid.contains(index) <==> pays_investor(
                run_cycle(p, policy, calls)->Some_0.payouts,
                index,
            ),
    decreases calls.len(),
{
    let call = calls.last();
    let before = run_cycle(p, policy, calls.drop_last())->Some_0;
    let after = run_cycle(p, policy, calls)->Some_0;
    let outcome = crank_call(before.record, policy, call)->Ok_0.1;
    lemma_crank_call(before.record, policy, call);
    let old_len = before.payouts.len() as int;
    if calls.len() == 1 {
        assert(calls.drop_last().len() == 0);
        assert(before.record == p);
        assert(after.payouts =~= outcome.payouts);
    } else {
        cycle_marks_exactly_the_paid(p, policy, calls.drop_last());
        if outcome.replayed {
            assert(outcome.payouts.len() == 0);
            assert(after.payouts =~= before.payouts);
        } else {
            assert forall|index: int|
                after.record.paid.contains(index) <==> pays_investor(after.payouts, index) by {
                assert(before.record.paid.contains(index) <==> pays_investor(
                    before.payouts,
                    index,
                ));
                if pays_investor(after.payouts, index) {
                    let i = choose|i: int|
                        0 <= i < after.payouts.len() && (
                        #[trigger] after.payouts[i]).investor_index == index;
                    if i < old_len {
                        assert(before.payouts[i] == after.payouts[i]);
                    } else {
                        assert(outcome.payouts[i - old_len] == after.payouts[i]);
                    }
                }
                if before.record.paid.contains(index) {
                    let i = choose|i: int|
                        0 <= i < before.payouts.len() && (
                        #[trigger] before.payouts[i]).investor_index == index;
                    assert(after.payouts[i] == before.payouts[i]);
                }
                if pays_investor(outcome.payouts, index) {
                    let i = choose|i: int|
                        0 <= i < outcome.payouts.len() && (
                        #[trigger] outcome.payouts[i]).investor_index == index;
                    assert(after.payouts[i + old_len] == outcome.payouts[i]);
                }
            }
        }
    }
}

/// The account of a cycle that a run opens: what the cycle has to hand out
/// is the first call's claim and the dust of the cycle before; what it has
/// distributed is the sum of all payouts of the run; the creator is paid
/// only by the call that closes it.
pub proof fn cycle_accounts(p: ProgressView, policy: Policy, calls: Seq<Call>)
    requires
        run_cycle(p, policy, calls) is Some,
        p.day_completed,
        calls.len() > 0,
    ensures
        ({
            let run = run_cycle(p, policy, calls)->Some_0;
            &&& run.record.current_day_total_claimed == calls[0].claimed + p.persistent_carry_over
            &&& run.record.current_day_distributed == payout_total(run.payouts)
            &&& run.record.total_investor_distributed == p.total_investor_distributed
                + payout_total(run.payouts)
            &&& run.record.total_creator_distributed == p.total_creator_distributed
                + run.creator_paid
            &&& !run.record.day_completed ==> run.creator_paid == 0
        }),
    decreases calls.len(),
{
    let call = calls.last();
    if calls.len() == 1 {
        assert(calls.drop_last().len() == 0);
        let before = run_cycle(p, policy, calls.drop_last())->Some_0;
        assert(before.record == p);
        lemma_crank_call(p, policy, call);
        let outcome = crank_call(p, policy, call)->Ok_0.1;
        assert(Seq::<InvestorPayout>::empty() + outcome.payouts =~= outcome.payouts);
    } else {
        cycle_accounts(p, policy, calls.drop_last());
        let before = run_cycle(p, policy, calls.drop_last())->Some_0;
        assert(calls.drop_last()[0] == calls[0]);
        lemma_crank_call(before.record, policy, call);
        let outcome = crank_call(before.record, policy, call)->Ok_0.1;
        lemma_payout_total_add(before.payouts, outcome.payouts);
        if outcome.replayed {
            assert(outcome.payouts.len() == 0);
        }
    }
}

/// Conservation: when a run opens a cycle and closes it, and the cycle has
/// not handed out more than it had, then the claim and the dust of the
/// cycle before are exactly what the investors were paid, what the creator
/// was paid and the dust carried to the next cycle.
pub proof fn completed_cycle_is_conserved(p: ProgressView, policy: Policy, calls: Seq<Call>)
    requires
        run_cycle(p, policy, calls) is Some,
        p.day_completed,
        calls.len() > 0,
        run_cycle(p, policy, calls)->Some_0.record.day_completed,
        run_cycle(p, policy, calls)->Some_0.record.current_day_distributed + run_cycle(
            p,
            policy,
            calls,
        )->Some_0.record.current_day_carry_over <= run_cycle(
            p,
            policy,
            calls,
        )->Some_0.record.current_day_total_claimed,
    ensures
        calls[0].claimed + p.persistent_carry_over == payout_total(
            run_cycle(p, policy, calls)->Some_0.payouts,
        ) + run_cycle(p, policy, calls)->Some_0.creator_paid + run_cycle(
            p,
            policy,
            calls,
        )->Some_0.record.persistent_carry_over,
{
    cycle_accounts(p, policy, calls);
    let call = calls.last();
    let before = run_cycle(p, policy, calls.drop_last())->Some_0;
    if calls.len() == 1 {
        assert(calls.drop_last().len() == 0);
        assert(before.record == p);
    } else {
        cycle_accounts(p, policy, calls.drop_last());
    }
    lemma_crank_call(before.record, policy, call);
}

/// Cap enforcement over a cycle: under a cap, all payouts of a cycle
/// together stay within it.
pub proof fn cycle_stays_within_cap(p: ProgressView, policy: Policy, calls: Seq<Call>)
    requires
        run_cycle(p, policy, calls) is Some,
        p.day_completed,
        policy.daily_cap_lamports is Some,
    ensures
        payout_total(run_cycle(p, policy, calls)->Some_0.payouts)
            <= policy.daily_cap_lamports->Some_0,
        calls.len() > 0 ==> run_cycle(p, policy, calls)->Some_0.record.current_day_distributed
            <= policy.daily_cap_lamports->Some_0,
    decreases calls.len(),
{
    if calls.len() > 0 {
        cycle_accounts(p, policy, calls);
        cycle_stays_within_cap(p, policy, calls.drop_last());
        let before = run_cycle(p, policy, calls.drop_last())->Some_0;
        if calls.len() == 1 {
            assert(calls.drop_last().len() == 0);
            assert(before.record == p);
        }
        lemma_crank_call(before.record, policy, calls.last());
    }
}

/// Monotonic cursor over a cycle: from the second call of a run on, the
/// cursor never moves back.
pub proof fn cycle_cursor_never_goes_back(p: ProgressView, policy: Policy, calls: Seq<Call>)
    requires
        run_cycle(p, policy, calls) is Some,
        calls.len() > 1,
    ensures
        run_cycle(p, policy, calls.drop_last()) is Some,
        run_cycle(p, policy, calls)->Some_0.record.pagination_cursor >= run_cycle(
            p,
            policy,
            calls.drop_last(),
        )->Some_0.record.pagination_cursor,
{
    let before = run_cycle(p, policy, calls.drop_last())->Some_0;
    lemma_crank_call(before.record, policy, calls.last());
}

/// The locked amounts that the pages of a run covered, added up. A replay
/// and a refused run cover nothing.
pub open spec fn run_locked(p: ProgressView, policy: Policy, calls: Seq<Call>) -> int
    decreases calls.len(),
{
    if calls.len() == 0 {
        0
    } else {
        match run_cycle(p, policy, calls.drop_last()) {
            None => 0,
            Some(run) => match crank_call(run.record, policy, calls.last()) {
                Err(_) => 0,
                Ok((record, outcome)) => run_locked(p, policy, calls.drop_last()) + if outcome.replayed {
                    0
                } else {
                    locked_sum(covered_page(run.record, policy, calls.last()))
                },
            },
        }
    }
}

/// A cycle hands out no more than it has, as long as the locked amounts
/// read on its pages add up to no more than the locked total taken when it
/// was opened: what it has distributed and what it carries as dust are then
/// within the investors' pool, which is within what the cycle has.
pub proof fn cycle_is_solvent(p: ProgressView, policy: Policy, calls: Seq<Call>)
    requires
        run_cycle(p, policy, calls) is Some,
        p.day_completed,
        calls.len() > 0,
        run_locked(p, policy, calls) <= calls[0].total_locked_all_investors,
    ensures
        run_cycle(p, policy, calls)->Some_0.record.current_day_distributed + run_cycle(
            p,
            policy,
            calls,
        )->Some_0.record.current_day_carry_over <= cycle_pool(
            run_cycle(p, policy, calls)->Some_0.record,
            policy,
        ),
        cycle_pool(run_cycle(p, policy, calls)->Some_0.record, policy) <= run_cycle(
            p,
            policy,
            calls,
        )->Some_0.record.current_day_total_claimed,
{
    lemma_cycle_within_share(p, policy, calls);
    let record = run_cycle(p, policy, calls)->Some_0.record;
    lemma_pool_within_claim(record, policy);
    lemma_run_locked_bounds(p, policy, calls);
    lemma_share_within_whole(
        cycle_pool(record, policy),
        run_locked(p, policy, calls),
        record.current_day_total_locked_all as int,
    );
}

/// The locked amounts that a run covered are not negative.
pub proof fn lemma_run_locked_bounds(p: ProgressView, policy: Policy, calls: Seq<Call>)
    ensures
        0 <= run_locked(p, policy, calls),
    decreases calls.len(),
{
    if calls.len() > 0 {
        lemma_run_locked_bounds(p, policy, calls.drop_last());
        match run_cycle(p, policy, calls.drop_last()) {
            None => {},
            Some(run) => {
                lemma_locked_sum_bounds(covered_page(run.record, policy, calls.last()));
            },
        }
    }
}

/// What a cycle has distributed and what it carries as dust are together at
/// most the share of the pool that the locked amounts covered so far take.
pub proof fn lemma_cycle_within_share(p: ProgressView, policy: Policy, calls: Seq<Call>)
    requires
        run_cycle(p, policy, calls) is Some,
        p.day_completed,
        calls.len() > 0,
    ensures
        ({
            let record = run_cycle(p, policy, calls)->Some_0.record;
            &&& record.current_day_total_locked_all == calls[0].total_locked_all_investors
            &&& record.current_day_distributed + record.current_day_carry_over
                <= individual_payout(
                cycle_pool(record, policy),
                run_locked(p, policy, calls),
                record.current_day_total_locked_all as int,
            )
        }),
    decreases calls.len(),
{
    let call = calls.last();
    let before = run_cycle(p, policy, calls.drop_last())->Some_0;
    let record = run_cycle(p, policy, calls)->Some_0.record;
    let outcome = crank_call(before.record, policy, call)->Ok_0.1;
    lemma_crank_call(before.record, policy, call);
    lemma_pool_within_claim(record, policy);
    let pool = cycle_pool(record, policy);
    let total = record.current_day_total_locked_all as int;
    let page = covered_page(before.record, policy, call);
    lemma_locked_sum_bounds(page);
    lemma_payouts_sum_bounded(pool, page, total);
    if calls.len() == 1 {
        assert(calls.drop_last().len() == 0);
        assert(before.record == p);
        assert(run_locked(p, policy, calls.drop_last()) == 0);
    } else {
        lemma_cycle_within_share(p, policy, calls.drop_last());
        lemma_run_locked_bounds(p, policy, calls.drop_last());
        assert(calls.drop_last()[0] == calls[0]);
        if !outcome.replayed {
            assert(cycle_pool(before.record, policy) == pool);
            if total != 0 {
                lemma_floor_shares_add(
                    pool,
                    run_locked(p, policy, calls.drop_last()),
                    locked_sum(page),
                    total,
                );
            }
        }
    }
}

} // verus!
