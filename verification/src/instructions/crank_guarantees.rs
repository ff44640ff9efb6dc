//! What the distribution engine guarantees of every call and of every
//! cycle, stated over `crank` and proved.

use vstd::prelude::*;
use crate::constants::MAX_INVESTORS;
use crate::constants::MAX_PAGE_SIZE;
use crate::error::HonouraryError;
use crate::events::QuoteFeesClaimed;
use crate::instructions::crank_distribution::apply_page;
use crate::instructions::crank_distribution::close_cycle;
use crate::instructions::crank_distribution::crank;
use crate::instructions::crank_distribution::opened_cycle;
use crate::instructions::crank_distribution::page_admission;
use crate::instructions::crank_distribution::page_holds_paid;
use crate::instructions::crank_distribution::page_cover;
use crate::instructions::crank_distribution::page_shape_ok;
use crate::instructions::crank_distribution::page_terms;
use crate::instructions::crank_distribution::replay_outcome;
use crate::instructions::crank_distribution::settle_page;
use crate::instructions::crank_distribution::tally_after;
use crate::instructions::crank_distribution::tally_start;
use crate::instructions::crank_distribution::CrankOutcomeView;
use crate::instructions::crank_distribution::PageAdmission;
use crate::instructions::page_account::lemma_tally_accounts;
use crate::instructions::page_account::lemma_tally_payouts;
use crate::instructions::page_account::lemma_tally_within_cap;
use crate::instructions::page_account::pays_investor;
use crate::instructions::page_account::payout_total;
use crate::state::policy::Policy;
use crate::state::progress::ProgressView;
use crate::utils::math::investor_fee_amount;
use crate::utils::math::lemma_share_within_claim;
use crate::utils::shares::lemma_locked_sum_bounds;
use crate::utils::shares::lemma_locked_sum_prefix;
use crate::utils::shares::lemma_payouts_sum_within_whole;
use crate::utils::shares::locked_sum;
use crate::utils::shares::payouts_sum;

verus! {

/// The inputs of one call of the engine, besides the record and the policy.
pub struct Call {
    pub page_start: u32,
    pub page_size: u32,
    pub total_locked_all_investors: u64,
    pub is_final_page: bool,
    pub now: i64,
    pub claimed: u64,
    pub locked: Seq<u64>,
}

/// `crank` on the inputs of a call.
pub open spec fn crank_call(p: ProgressView, policy: Policy, call: Call) -> Result<
    (ProgressView, CrankOutcomeView),
    HonouraryError,
> {
    crank(
        p,
        policy,
        call.page_start,
        call.page_size,
        call.total_locked_all_investors,
        call.is_final_page,
        call.now,
        call.claimed,
        call.locked,
    )
}

/// The investors' pool of the cycle that the record `p` is in.
pub open spec fn cycle_pool(p: ProgressView, policy: Policy) -> int {
    investor_fee_amount(
        p.current_day_total_claimed as int,
        policy.eligible_bps(p.current_day_total_locked_all),
    )
}

/// What an applied page guarantees, over the record `p` that it is applied
/// to.
pub open spec fn page_guarantees(
    p: ProgressView,
    policy: Policy,
    page_start: u32,
    page_size: u32,
    is_final_page: bool,
    page: Seq<u64>,
    record: ProgressView,
    outcome: CrankOutcomeView,
) -> bool {
    &&& !outcome.replayed
    &&& record.pagination_cursor == page_start + page_size
    &&& record.last_page_start == Some(page_start)
    &&& record.day_completed == is_final_page
    &&& record.current_day_total_claimed == p.current_day_total_claimed
    &&& record.current_day_total_locked_all == p.current_day_total_locked_all
    &&& record.last_distribution_ts == p.last_distribution_ts
    &&& forall|i: int|
        0 <= i < outcome.payouts.len() ==> {
            &&& page_start <= (#[trigger] outcome.payouts[i]).investor_index < page_start
                + page.len()
            &&& outcome.payouts[i].amount > 0
            &&& !p.paid.contains(outcome.payouts[i].investor_index as int)
            &&& (!is_final_page ==> record.paid.contains(outcome.payouts[i].investor_index as int))
            &&& (outcome.payouts[i].amount >= policy.min_payout_lamports || (
            policy.daily_cap_lamports is Some && record.current_day_distributed
                == policy.daily_cap_lamports->Some_0))
        }
    &&& forall|i: int, j: int|
        0 <= i < j < outcome.payouts.len() ==> (#[trigger] outcome.payouts[i]).investor_index < (
        #[trigger] outcome.payouts[j]).investor_index
    &&& (!is_final_page ==> forall|index: int|
        record.paid.contains(index) <==> p.paid.contains(index) || pays_investor(
            outcome.payouts,
            index,
        ))
    &&& record.current_day_distributed == p.current_day_distributed + payout_total(outcome.payouts)
    &&& record.total_investor_distributed == p.total_investor_distributed + payout_total(
        outcome.payouts,
    )
    &&& record.current_day_distributed + record.current_day_carry_over
        == p.current_day_distributed + p.current_day_carry_over + payouts_sum(
        cycle_pool(p, policy),
        page,
        p.current_day_total_locked_all as int,
    )
    &&& (policy.daily_cap_lamports is Some && p.current_day_distributed
        <= policy.daily_cap_lamports->Some_0 ==> record.current_day_distributed
        <= policy.daily_cap_lamports->Some_0)
    &&& (is_final_page ==> {
        &&& outcome.creator_payout is Some
        &&& record.persistent_carry_over == record.current_day_carry_over
        &&& record.total_creator_distributed == p.total_creator_distributed
            + outcome.creator_payout->Some_0
        &&& record.total_distributions == p.total_distributions + 1
        &&& (record.current_day_distributed + record.current_day_carry_over
            <= record.current_day_total_claimed ==> record.current_day_total_claimed
            == record.current_day_distributed + outcome.creator_payout->Some_0
            + record.persistent_carry_over)
        &&& (record.current_day_distributed + record.current_day_carry_over
            > record.current_day_total_claimed ==> outcome.creator_payout->Some_0 == 0)
    })
    &&& (!is_final_page ==> outcome.creator_payout is None)
}

/// A page applied to the record of an open cycle keeps its guarantees.
pub proof fn lemma_apply_page(
    p: ProgressView,
    policy: Policy,
    page_start: u32,
    page_size: u32,
    is_final_page: bool,
    now: i64,
    page: Seq<u64>,
    fees_claimed: Option<QuoteFeesClaimed>,
)
    requires
        apply_page(p, policy, page_start, page_size, is_final_page, now, page, fees_claimed) is Ok,
        !p.day_completed,
        page_start + page.len() <= MAX_INVESTORS,
        page_start + page_size <= u32::MAX,
    ensures
        page_guarantees(
            p,
            policy,
            page_start,
            page_size,
            is_final_page,
            page,
            apply_page(
                p,
                policy,
                page_start,
                page_size,
                is_final_page,
                now,
                page,
                fees_claimed,
            )->Ok_0.0,
            apply_page(
                p,
                policy,
                page_start,
                page_size,
                is_final_page,
                now,
                page,
                fees_claimed,
            )->Ok_0.1,
        ),
{
    let applied = apply_page(
        p,
        policy,
        page_start,
        page_size,
        is_final_page,
        now,
        page,
        fees_claimed,
    )->Ok_0;
    let record = applied.0;
    let outcome = applied.1;
    let terms = page_terms(p, policy, page_start, page);
    let start = tally_start(p, terms);
    let n = page.len();
    lemma_locked_sum_bounds(page);
    lemma_pool_within_claim(p, policy);
    assert(!page_holds_paid(p, page_start, n));
    let t = tally_after(terms, start, page, n)->Some_0;
    lemma_tally_accounts(terms, start, page, n);
    lemma_tally_payouts(terms, start, page, n);
    if policy.daily_cap_lamports is Some && p.current_day_distributed
        <= policy.daily_cap_lamports->Some_0 {
        lemma_tally_within_cap(terms, start, page, n);
    }
    assert(page.take(n as int) =~= page);
    lemma_payouts_sum_within_whole(terms.carry_in, page, terms.page_locked);
    assert(0 <= t.shared <= terms.carry_in);
    let settled = settle_page(p, terms, t, page_start, page_size, now)->Ok_0;
    let paged = settled.0;
    assert(outcome.payouts == t.payouts);
    assert(paged.current_day_distributed + paged.current_day_carry_over
        == p.current_day_distributed + p.current_day_carry_over + payouts_sum(
        cycle_pool(p, policy),
        page,
        p.current_day_total_locked_all as int,
    ));
    assert forall|i: int| 0 <= i < outcome.payouts.len() implies {
        &&& page_start <= (#[trigger] outcome.payouts[i]).investor_index < page_start + page.len()
        &&& outcome.payouts[i].amount > 0
        &&& !p.paid.contains(outcome.payouts[i].investor_index as int)
        &&& (!is_final_page ==> record.paid.contains(outcome.payouts[i].investor_index as int))
        &&& (outcome.payouts[i].amount >= policy.min_payout_lamports || (
        policy.daily_cap_lamports is Some && record.current_day_distributed
            == policy.daily_cap_lamports->Some_0))
    } by {
        let index = outcome.payouts[i].investor_index as int;
        assert(t.marked.contains(index));
        if p.paid.contains(index) {
            assert(page_holds_paid(p, page_start, n));
        }
    }
    if is_final_page {
        assert(close_cycle(paged) is Ok);
        assert(record == close_cycle(paged)->Ok_0);
    } else {
        assert(record == paged);
    }
}

/// The investors' pool is never more than what the cycle hands out.
pub proof fn lemma_pool_within_claim(p: ProgressView, policy: Policy)
    ensures
        0 <= cycle_pool(p, policy) <= p.current_day_total_claimed,
        0 <= policy.eligible_bps(p.current_day_total_locked_all) <= 10000,
{
    let locked = p.current_day_total_locked_all as int;
    let y0 = policy.y0_total_allocation as int;
    if y0 != 0 {
        assert(0 <= locked * 10000) by (nonlinear_arith)
            requires
                0 <= locked,
        ;
        vstd::arithmetic::div_mod::lemma_div_pos_is_pos(locked * 10000, y0);
    }
    lemma_share_within_claim(
        p.current_day_total_claimed as int,
        policy.eligible_bps(p.current_day_total_locked_all),
    );
}

/// The record that the page of an accepted call is applied to: the opened
/// cycle on a first page, the record as it stood on any other.
pub open spec fn entered_record(p: ProgressView, call: Call) -> ProgressView {
    if p.day_completed {
        opened_cycle(p, call.now, call.claimed, call.total_locked_all_investors)
    } else {
        p
    }
}

/// The locked amounts of the investors that the page of an accepted call
/// covers.
pub open spec fn covered_page(p: ProgressView, policy: Policy, call: Call) -> Seq<u64> {
    if p.day_completed {
        call.locked.take(page_cover(policy, call.page_start, call.page_size) as int)
    } else {
        call.locked
    }
}

/// An accepted call either replays, and then returns the record as it was,
/// or applies its page with all the guarantees of a page.
pub proof fn lemma_crank_call(p: ProgressView, policy: Policy, call: Call)
    requires
        crank_call(p, policy, call) is Ok,
    ensures
        ({
            let record = crank_call(p, policy, call)->Ok_0.0;
            let outcome = crank_call(p, policy, call)->Ok_0.1;
            if outcome.replayed {
                &&& record == p
                &&& outcome == replay_outcome()
                &&& !p.day_completed
                &&& p.last_page_start == Some(call.page_start)
            } else {
                &&& page_guarantees(
                    entered_record(p, call),
                    policy,
                    call.page_start,
                    call.page_size,
                    call.is_final_page,
                    covered_page(p, policy, call),
                    record,
                    outcome,
                )
                &&& call.page_start + covered_page(p, policy, call).len() <= MAX_INVESTORS
                &&& (p.day_completed ==> call.page_start == 0 && locked_sum(call.locked)
                    == call.total_locked_all_investors && call.claimed + p.persistent_carry_over
                    <= u64::MAX)
                &&& (!p.day_completed ==> call.page_start == p.pagination_cursor)
                &&& covered_page(p, policy, call).len() == page_cover(
                    policy,
                    call.page_start,
                    call.page_size,
                )
                &&& (p.day_completed ==> call.locked.len() == policy.total_investors)
                &&& 1 <= call.page_size <= MAX_PAGE_SIZE
            }
        }),
{
    let admission = page_admission(p, call.page_start, call.page_size, call.now)->Ok_0;
    if admission != PageAdmission::Replay {
        assert(page_shape_ok(
            policy,
            admission,
            call.page_start,
            call.page_size,
            call.is_final_page,
            call.locked.len(),
        ));
        let page = covered_page(p, policy, call);
        if admission == PageAdmission::NewCycle {
            lemma_apply_page(
                entered_record(p, call),
                policy,
                call.page_start,
                call.page_size,
                call.is_final_page,
                call.now,
                page,
                Some(QuoteFeesClaimed { vault: p.vault, amount: call.claimed, timestamp: call.now }),
            );
        } else {
            lemma_apply_page(
                p,
                policy,
                call.page_start,
                call.page_size,
                call.is_final_page,
                call.now,
                page,
                None,
            );
        }
    }
}

/// No page loses value: what the cycle has distributed and what it carries
/// as dust grow together by exactly the pro-rata payouts of the page's
/// investors, each rounded down; and what the cycle has distributed grows by
/// exactly the payouts that the call asks for.
pub proof fn page_drops_nothing(p: ProgressView, policy: Policy, call: Call)
    requires
        crank_call(p, policy, call) is Ok,
        !crank_call(p, policy, call)->Ok_0.1.replayed,
    ensures
        ({
            let record = crank_call(p, policy, call)->Ok_0.0;
            let outcome = crank_call(p, policy, call)->Ok_0.1;
            let entered = entered_record(p, call);
            &&& record.current_day_distributed + record.current_day_carry_over
                == entered.current_day_distributed + entered.current_day_carry_over + payouts_sum(
                cycle_pool(entered, policy),
                covered_page(p, policy, call),
                entered.current_day_total_locked_all as int,
            )
            &&& record.current_day_distributed == entered.current_day_distributed + payout_total(
                outcome.payouts,
            )
        }),
{
    lemma_crank_call(p, policy, call);
}

/// Conservation at the close of a cycle: unless the cycle has handed out
/// more than it had, what it had is exactly what investors got, what the
/// creator gets and what is carried to the next cycle. Where it has handed
/// out more, the creator gets nothing.
pub proof fn closed_cycle_is_conserved(p: ProgressView, policy: Policy, call: Call)
    requires
        crank_call(p, policy, call) is Ok,
        call.is_final_page,
        !crank_call(p, policy, call)->Ok_0.1.replayed,
    ensures
        ({
            let record = crank_call(p, policy, call)->Ok_0.0;
            let outcome = crank_call(p, policy, call)->Ok_0.1;
            &&& record.day_completed
            &&& outcome.creator_payout is Some
            &&& record.persistent_carry_over == record.current_day_carry_over
            &&& (record.current_day_distributed + record.current_day_carry_over
                <= record.current_day_total_claimed ==> record.current_day_total_claimed
                == record.current_day_distributed + outcome.creator_payout->Some_0
                + record.persistent_carry_over)
            &&& (record.current_day_distributed + record.current_day_carry_over
                > record.current_day_total_claimed ==> outcome.creator_payout->Some_0 == 0)
        }),
{
    lemma_crank_call(p, policy, call);
}

/// Conservation of a cycle of one page: the claim and the dust of the cycle
/// before are exactly what the investors get, what the creator gets and what
/// is carried to the next cycle.
pub proof fn single_page_cycle_is_conserved(p: ProgressView, policy: Policy, call: Call)
    requires
        crank_call(p, policy, call) is Ok,
        p.day_completed,
        call.is_final_page,
    ensures
        ({
            let record = crank_call(p, policy, call)->Ok_0.0;
            let outcome = crank_call(p, policy, call)->Ok_0.1;
            &&& outcome.creator_payout is Some
            &&& call.claimed + p.persistent_carry_over == payout_total(outcome.payouts)
                + outcome.creator_payout->Some_0 + record.persistent_carry_over
        }),
{
    lemma_crank_call(p, policy, call);
    let entered = entered_record(p, call);
    let page = covered_page(p, policy, call);
    lemma_pool_within_claim(entered, policy);
    lemma_locked_sum_bounds(call.locked);
    lemma_locked_sum_prefix(
        call.locked,
        page_cover(policy, call.page_start, call.page_size) as int,
    );
    lemma_payouts_sum_within_whole(
        cycle_pool(entered, policy),
        page,
        entered.current_day_total_locked_all as int,
    );
}

/// Idempotence: once a page is accepted and the cycle is still open, a
/// call that starts where that page began succeeds as a replay, whatever
/// else it brings, and the record stays as it is.
pub proof fn replay_changes_nothing(p: ProgressView, policy: Policy, call: Call, again: Call)
    requires
        crank_call(p, policy, call) is Ok,
        !crank_call(p, policy, call)->Ok_0.0.day_completed,
        again.page_start == call.page_start,
        1 <= again.page_size <= MAX_PAGE_SIZE,
    ensures
        crank_call(crank_call(p, policy, call)->Ok_0.0, policy, again) == Ok::<
            (ProgressView, CrankOutcomeView),
            HonouraryError,
        >((crank_call(p, policy, call)->Ok_0.0, replay_outcome())),
{
    lemma_crank_call(p, policy, call);
}

/// Strict sequence: while a cycle is open, a call is accepted only where it
/// starts at the cursor, and is then applied, or where it starts where the
/// last page taken began, and is then a replay. Any other start is refused:
/// no page is skipped and none is taken again.
pub proof fn pages_come_in_sequence(p: ProgressView, policy: Policy, call: Call)
    requires
        !p.day_completed,
        1 <= call.page_size <= MAX_PAGE_SIZE,
    ensures
        p.last_page_start != Some(call.page_start) && call.page_start != p.pagination_cursor
            ==> crank_call(p, policy, call) == Err::<
            (ProgressView, CrankOutcomeView),
            HonouraryError,
        >(HonouraryError::InvalidPaginationSequence),
        crank_call(p, policy, call) is Ok ==> (crank_call(p, policy, call)->Ok_0.1.replayed <==> p.last_page_start
            == Some(call.page_start)),
{
    if crank_call(p, policy, call) is Ok {
        lemma_crank_call(p, policy, call);
    }
}

/// No double payment within a call: the payouts go to investors of the
/// page in rising index order, so to no investor twice, and to none that
/// was marked as paid when the page was applied.
pub proof fn page_pays_each_investor_once(p: ProgressView, policy: Policy, call: Call)
    requires
        crank_call(p, policy, call) is Ok,
    ensures
        ({
            let outcome = crank_call(p, policy, call)->Ok_0.1;
            &&& forall|i: int, j: int|
                0 <= i < j < outcome.payouts.len() ==> (#[trigger] outcome.payouts[i]).investor_index
                    < (#[trigger] outcome.payouts[j]).investor_index
            &&& forall|i: int|
                0 <= i < outcome.payouts.len() ==> call.page_start <= (
                #[trigger] outcome.payouts[i]).investor_index < call.page_start + call.page_size
            &&& !p.day_completed ==> forall|i: int|
                0 <= i < outcome.payouts.len() ==> !p.paid.contains(
                    (#[trigger] outcome.payouts[i]).investor_index as int,
                )
        }),
{
    lemma_crank_call(p, policy, call);
    let outcome = crank_call(p, policy, call)->Ok_0.1;
    if outcome.replayed {
        assert(outcome.payouts.len() == 0);
    }
}

/// The marks of a cycle: while the cycle stays open, every investor that a
/// call pays is marked as paid afterwards, every mark stays, and no mark
/// is added but for a payout.
pub proof fn paid_investors_stay_marked(p: ProgressView, policy: Policy, call: Call)
    requires
        crank_call(p, policy, call) is Ok,
        !crank_call(p, policy, call)->Ok_0.0.day_completed,
    ensures
        ({
            let record = crank_call(p, policy, call)->Ok_0.0;
            let outcome = crank_call(p, policy, call)->Ok_0.1;
            &&& forall|i: int|
                0 <= i < outcome.payouts.len() ==> record.paid.contains(
                    (#[trigger] outcome.payouts[i]).investor_index as int,
                )
            &&& !p.day_completed ==> forall|index: int|
                record.paid.contains(index) <==> p.paid.contains(index) || pays_investor(
                    outcome.payouts,
                    index,
                )
            &&& p.day_completed ==> forall|index: int|
                record.paid.contains(index) <==> pays_investor(outcome.payouts, index)
        }),
{
    lemma_crank_call(p, policy, call);
    let outcome = crank_call(p, policy, call)->Ok_0.1;
    if outcome.replayed {
        assert(outcome.payouts.len() == 0);
    }
}

/// Monotonic cursor: a call accepted while the cycle is open never moves
/// the cursor back; unless it is a replay, it moves the cursor to the end of
/// its page.
pub proof fn cursor_never_goes_back(p: ProgressView, policy: Policy, call: Call)
    requires
        crank_call(p, policy, call) is Ok,
    ensures
        ({
            let record = crank_call(p, policy, call)->Ok_0.0;
            let outcome = crank_call(p, policy, call)->Ok_0.1;
            &&& !p.day_completed ==> record.pagination_cursor >= p.pagination_cursor
            &&& !outcome.replayed ==> record.pagination_cursor == call.page_start + call.page_size
            &&& p.day_completed ==> call.page_start == 0
        }),
{
    lemma_crank_call(p, policy, call);
}

/// Entry guard: a cycle is opened only by page 0, only when the cycle
/// before is closed and a day has passed since it was opened; the new cycle
/// then starts at the time of the call with the claim and the dust of the
/// cycle before. A page of an open cycle is taken at any time.
pub proof fn cycle_opens_only_after_a_day(p: ProgressView, policy: Policy, call: Call)
    requires
        crank_call(p, policy, call) is Ok,
    ensures
        ({
            let record = crank_call(p, policy, call)->Ok_0.0;
            let outcome = crank_call(p, policy, call)->Ok_0.1;
            &&& outcome.fees_claimed is Some <==> p.day_completed
            &&& p.day_completed ==> {
                &&& call.page_start == 0
                &&& call.now >= p.last_distribution_ts + 86400
                &&& record.last_distribution_ts == call.now
                &&& record.current_day_total_claimed == call.claimed + p.persistent_carry_over
                &&& record.current_day_total_locked_all == locked_sum(call.locked)
                &&& outcome.fees_claimed->Some_0.amount == call.claimed
            }
            &&& !p.day_completed ==> {
                &&& record.last_distribution_ts == p.last_distribution_ts
                &&& record.current_day_total_claimed == p.current_day_total_claimed
                &&& record.current_day_total_locked_all == p.current_day_total_locked_all
            }
        }),
{
    lemma_crank_call(p, policy, call);
}

/// Cap enforcement: under a cap, what a cycle has distributed is within the
/// cap after every accepted call, given that it was within the cap before
/// or that the call opens the cycle.
pub proof fn cap_is_never_exceeded(p: ProgressView, policy: Policy, call: Call)
    requires
        crank_call(p, policy, call) is Ok,
        policy.daily_cap_lamports is Some,
        p.day_completed || p.current_day_distributed <= policy.daily_cap_lamports->Some_0,
    ensures
        crank_call(p, policy, call)->Ok_0.0.current_day_distributed
            <= policy.daily_cap_lamports->Some_0,
{
    lemma_crank_call(p, policy, call);
}

/// Dust floor: every payout reaches the payout threshold, but for the one
/// that uses up what the daily cap leaves: after a payout below the
/// threshold the cycle has distributed exactly the cap. No payout is zero.
pub proof fn payout_reaches_threshold(p: ProgressView, policy: Policy, call: Call)
    requires
        crank_call(p, policy, call) is Ok,
    ensures
        ({
            let record = crank_call(p, policy, call)->Ok_0.0;
            let outcome = crank_call(p, policy, call)->Ok_0.1;
            forall|i: int|
                0 <= i < outcome.payouts.len() ==> {
                    &&& (#[trigger] outcome.payouts[i]).amount > 0
                    &&& (outcome.payouts[i].amount >= policy.min_payout_lamports || (
                    policy.daily_cap_lamports is Some && record.current_day_distributed
                        == policy.daily_cap_lamports->Some_0))
                }
        }),
{
    lemma_crank_call(p, policy, call);
    let outcome = crank_call(p, policy, call)->Ok_0.1;
    if outcome.replayed {
        assert(outcome.payouts.len() == 0);
    }
}

} // verus!
