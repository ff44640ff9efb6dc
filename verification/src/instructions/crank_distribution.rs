//! The distribution engine: one page of investors per call.
//!
//! A cycle is opened by its first page, which takes the claimed fees in,
//! advanced by pages that start at the cursor, and closed by its final page,
//! which leaves the remainder to the creator. A page is applied whole or not
//! at all.

use vstd::prelude::*;
use crate::constants::MAX_INVESTORS;
use crate::constants::MAX_PAGE_SIZE;
use crate::error::HonouraryError;
use crate::events::CreatorPayoutDayClosed;
use crate::events::InvestorPayoutPage;
use crate::events::QuoteFeesClaimed;
use crate::instructions::page_account::lemma_tally_accounts;
use crate::instructions::page_account::lemma_tally_overflow_stays;
use crate::instructions::page_account::lemma_tally_shared_step;
use crate::integrations::streamflow::calculate_total_locked_amounts;
use crate::state::policy::Policy;
use crate::state::progress::DistributionProgress;
use crate::state::progress::ProgressView;
use crate::utils::math::calculate_creator_remainder;
use crate::utils::math::calculate_investor_fee_amount;
use crate::utils::math::capped_payout;
use crate::utils::math::creator_remainder;
use crate::utils::math::individual_payout;
use crate::utils::math::investor_fee_amount;
use crate::utils::math::payout_under_cap;
use crate::utils::shares::lemma_locked_sum_bounds;
use crate::utils::shares::lemma_locked_sum_take;
use crate::utils::shares::lemma_payout_not_negative;
use crate::utils::shares::lemma_payouts_sum_within_whole;
use crate::utils::shares::locked_sum;

verus! {

/// How a page stands to the progress of its vault.
#[derive(Clone, Copy, Debug, PartialEq, Eq, Structural)]
pub enum PageAdmission {
    /// The last page taken, sent again: nothing is to be done.
    Replay,
    /// The first page of a new cycle: fees are to be claimed.
    NewCycle,
    /// The page at the cursor of the open cycle.
    Continue,
}

/// A transfer to make to one investor.
#[derive(Clone, Copy, Debug, PartialEq, Eq, Structural)]
pub struct InvestorPayout {
    /// The investor's index over all investors.
    pub investor_index: u32,
    /// The amount to transfer: never zero.
    pub amount: u64,
}

/// What a call asks its caller to do and to report.
#[derive(Debug)]
pub struct CrankOutcome {
    /// The call repeated the last page taken and changed nothing.
    pub replayed: bool,
    /// The claim that opened the cycle, on a cycle's first page.
    pub fees_claimed: Option<QuoteFeesClaimed>,
    /// The transfers to investors, in index order.
    pub payouts: Vec<InvestorPayout>,
    /// The creator's remainder, on a cycle's final page. Zero asks for no
    /// transfer.
    pub creator_payout: Option<u64>,
    /// The report of the page, unless the call was a replay.
    pub page: Option<InvestorPayoutPage>,
    /// The report of the closed cycle, on a cycle's final page.
    pub day_closed: Option<CreatorPayoutDayClosed>,
}

/// A `CrankOutcome` with its payouts as a sequence.
pub struct CrankOutcomeView {
    pub replayed: bool,
    pub fees_claimed: Option<QuoteFeesClaimed>,
    pub payouts: Seq<InvestorPayout>,
    pub creator_payout: Option<u64>,
    pub page: Option<InvestorPayoutPage>,
    pub day_closed: Option<CreatorPayoutDayClosed>,
}

impl View for CrankOutcome {
    type V = CrankOutcomeView;

    open spec fn view(&self) -> CrankOutcomeView {
        CrankOutcomeView {
            replayed: self.replayed,
            fees_claimed: self.fees_claimed,
            payouts: self.payouts@,
            creator_payout: self.creator_payout,
            page: self.page,
            day_closed: self.day_closed,
        }
    }
}

/// Whether `page_start` is where the last page taken in the open cycle
/// began.
pub open spec fn replays_previous_page(p: ProgressView, page_start: u32) -> bool {
    !p.day_completed && p.last_page_start == Some(page_start)
}

/// The guard of every call, which looks at the record and changes nothing.
///
/// A page size outside `1..=MAX_PAGE_SIZE` is refused. With the cycle
/// closed, only page 0 is taken, and not before a day has passed since the
/// last cycle started. With the cycle open, a page that starts where the
/// last page taken began is a replay, the page at the cursor continues, and
/// any other is refused.
pub open spec fn page_admission(p: ProgressView, page_start: u32, page_size: u32, now: i64) -> Result<
    PageAdmission,
    HonouraryError,
> {
    if page_size == 0 || page_size > MAX_PAGE_SIZE {
        Err(HonouraryError::InvalidPagination)
    } else if p.day_completed {
        if now < p.last_distribution_ts + 86400 {
            Err(HonouraryError::CrankWindowNotReached)
        } else if page_start != 0 {
            Err(HonouraryError::InvalidPaginationSequence)
        } else {
            Ok(PageAdmission::NewCycle)
        }
    } else if replays_previous_page(p, page_start) {
        Ok(PageAdmission::Replay)
    } else if page_start == p.pagination_cursor {
        Ok(PageAdmission::Continue)
    } else {
        Err(HonouraryError::InvalidPaginationSequence)
    }
}

/// How many investors the page covers: those from its start to its end,
/// or to the last investor where the page reaches beyond.
pub open spec fn page_cover(policy: Policy, page_start: u32, page_size: u32) -> nat {
    let end = if page_start + page_size < policy.total_investors {
        page_start + page_size
    } else {
        policy.total_investors as int
    };
    if end > page_start {
        (end - page_start) as nat
    } else {
        0
    }
}

/// Whether the bounds of the page are consistent: its end fits 32 bits, it
/// is declared final exactly when it reaches the last investor, it covers
/// no index beyond the bitmap, and it is given the locked amounts that it
/// is due: those of all investors on the first page of a cycle, those of
/// the investors that it covers on any other page.
pub open spec fn page_shape_ok(
    policy: Policy,
    admission: PageAdmission,
    page_start: u32,
    page_size: u32,
    is_final_page: bool,
    supplied: nat,
) -> bool {
    &&& page_start + page_size <= u32::MAX
    &&& is_final_page == (page_start + page_size >= policy.total_investors)
    &&& page_start + page_cover(policy, page_start, page_size) <= MAX_INVESTORS
    &&& supplied == if admission == PageAdmission::NewCycle {
        policy.total_investors as nat
    } else {
        page_cover(policy, page_start, page_size)
    }
}

/// The record after a new cycle is opened with `claimed` fees and `total`
/// locked over all investors.
pub open spec fn opened_cycle(p: ProgressView, now: i64, claimed: u64, total: u64) -> ProgressView {
    ProgressView {
        last_distribution_ts: now,
        current_day_distributed: 0,
        current_day_carry_over: 0,
        pagination_cursor: 0,
        day_completed: false,
        current_day_total_claimed: (claimed + p.persistent_carry_over) as u64,
        current_day_total_locked_all: total,
        persistent_carry_over: 0,
        last_page_start: None,
        paid: Set::empty(),
        ..p
    }
}

/// The amounts that stay fixed while a page is worked through.
pub struct PageTerms {
    /// Index of the page's first investor.
    pub page_start: int,
    /// The investors' pool of the cycle: the eligible share of what the cycle
    /// hands out.
    pub pool: int,
    /// Locked over all investors when the cycle started.
    pub total_locked: int,
    /// Dust of earlier pages that this page shares out: all of it from the
    /// threshold up, none of it below.
    pub carry_in: int,
    /// Locked over the investors of this page.
    pub page_locked: int,
    /// Amounts below this are not paid.
    pub threshold: int,
    /// The cap on what a cycle pays to investors.
    pub daily_cap: Option<u64>,
}

/// The running account of a page.
pub struct PageTally {
    /// Paid to investors in the cycle so far.
    pub distributed: int,
    /// Dust gathered on this page so far.
    pub dust: int,
    /// Shares of the carried-in dust handed to investors so far.
    pub shared: int,
    /// The transfers so far.
    pub payouts: Seq<InvestorPayout>,
    /// The investors marked as paid so far.
    pub marked: Set<int>,
}

/// The terms of a page over the record `p` that it starts from.
pub open spec fn page_terms(p: ProgressView, policy: Policy, page_start: u32, page: Seq<u64>) -> PageTerms {
    PageTerms {
        page_start: page_start as int,
        pool: investor_fee_amount(
            p.current_day_total_claimed as int,
            policy.eligible_bps(p.current_day_total_locked_all),
        ),
        total_locked: p.current_day_total_locked_all as int,
        carry_in: if p.current_day_carry_over >= policy.min_payout_lamports {
            p.current_day_carry_over as int
        } else {
            0
        },
        page_locked: locked_sum(page),
        threshold: policy.min_payout_lamports as int,
        daily_cap: policy.daily_cap_lamports,
    }
}

/// The account before the first investor: the dust that is not shared out
/// stays dust.
pub open spec fn tally_start(p: ProgressView, terms: PageTerms) -> PageTally {
    PageTally {
        distributed: p.current_day_distributed as int,
        dust: p.current_day_carry_over - terms.carry_in,
        shared: 0,
        payouts: Seq::empty(),
        marked: Set::empty(),
    }
}

/// What an investor with `locked` locked is due on this page: the payout
/// out of the pool by the locked total of the cycle, and with it the share
/// of the carried-in dust by the locked total of the page. The two are due
/// together, so that an investor is paid at most once in a cycle.
pub open spec fn investor_amount(terms: PageTerms, locked: int) -> int {
    individual_payout(terms.pool, locked, terms.total_locked) + individual_payout(
        terms.carry_in,
        locked,
        terms.page_locked,
    )
}

/// The account after investor `j` of the page, who has `locked` locked.
///
/// Where the payout out of the pool is below the threshold, all that is
/// due becomes dust. Else the investor is paid what the cap leaves room
/// for, at once counted as distributed, and the rest of what is due becomes
/// dust. An investor is marked exactly when something is paid. `None` where
/// an amount does not fit 64 bits.
pub open spec fn tally_step(terms: PageTerms, t: PageTally, j: int, locked: int) -> Option<PageTally> {
    let raw = individual_payout(terms.pool, locked, terms.total_locked);
    let amount = investor_amount(terms, locked);
    let shared = t.shared + individual_payout(terms.carry_in, locked, terms.page_locked);
    if amount > u64::MAX {
        None
    } else if raw < terms.threshold {
        if t.dust + amount > u64::MAX {
            None
        } else {
            Some(PageTally { dust: t.dust + amount, shared: shared, ..t })
        }
    } else {
        let allowed = capped_payout(t.distributed, amount, terms.daily_cap);
        if t.distributed + allowed > u64::MAX || t.dust + (amount - allowed) > u64::MAX {
            None
        } else {
            Some(
                PageTally {
                    distributed: t.distributed + allowed,
                    dust: t.dust + (amount - allowed),
                    shared: shared,
                    payouts: if allowed > 0 {
                        t.payouts.push(
                            InvestorPayout {
                                investor_index: (terms.page_start + j) as u32,
                                amount: allowed as u64,
                            },
                        )
                    } else {
                        t.payouts
                    },
                    marked: if allowed > 0 {
                        t.marked.insert(terms.page_start + j)
                    } else {
                        t.marked
                    },
                },
            )
        }
    }
}

/// The account after the first `k` investors of the page, in index order.
pub open spec fn tally_after(terms: PageTerms, start: PageTally, page: Seq<u64>, k: nat) -> Option<
    PageTally,
>
    decreases k,
{
    if k == 0 {
        Some(start)
    } else {
        match tally_after(terms, start, page, (k - 1) as nat) {
            None => None,
            Some(t) => tally_step(terms, t, k - 1, page[k - 1] as int),
        }
    }
}

/// Whether an investor of the page is already marked as paid.
pub open spec fn page_holds_paid(p: ProgressView, page_start: u32, len: nat) -> bool {
    exists|index: int| page_start <= index < page_start + len && p.paid.contains(index)
}

/// The outcome of a replay.
pub open spec fn replay_outcome() -> CrankOutcomeView {
    CrankOutcomeView {
        replayed: true,
        fees_claimed: None,
        payouts: Seq::empty(),
        creator_payout: None,
        page: None,
        day_closed: None,
    }
}

/// The record after the investors of a page are worked through, with the
/// report of the page: the carried-in dust that no share took joins the
/// dust, the cursor moves to the end of the page, the start of the page is
/// remembered, and the investors that the page marked are marked in the
/// record. `MathOverflow` where the dust
/// or the lifetime total paid to investors does not fit 64 bits.
pub open spec fn settle_page(
    p: ProgressView,
    terms: PageTerms,
    t: PageTally,
    page_start: u32,
    page_size: u32,
    now: i64,
) -> Result<(ProgressView, InvestorPayoutPage), HonouraryError> {
    let dust = t.dust + (terms.carry_in - t.shared);
    let page_paid = t.distributed - p.current_day_distributed;
    if dust > u64::MAX || p.total_investor_distributed + page_paid > u64::MAX {
        Err(HonouraryError::MathOverflow)
    } else {
        Ok(
            (
                ProgressView {
                    current_day_distributed: t.distributed as u64,
                    current_day_carry_over: dust as u64,
                    pagination_cursor: (page_start + page_size) as u32,
                    total_investor_distributed: (p.total_investor_distributed + page_paid) as u64,
                    last_page_start: Some(page_start),
                    paid: p.paid.union(t.marked),
                    ..p
                },
                InvestorPayoutPage {
                    vault: p.vault,
                    page_start: page_start,
                    page_size: page_size,
                    investors_paid: t.payouts.len() as u32,
                    total_paid: page_paid as u64,
                    dust_carried: dust as u64,
                    timestamp: now,
                },
            ),
        )
    }
}

/// What the creator is left when the cycle of `p` is closed: what the cycle
/// had to hand out, less what investors got and less the dust.
pub open spec fn closing_remainder(p: ProgressView) -> int {
    creator_remainder(
        p.current_day_total_claimed as int,
        p.current_day_distributed as int,
        p.current_day_carry_over as int,
    )
}

/// The record after its cycle is closed: the cycle is counted, the creator
/// is credited the remainder, the dust is kept for the next cycle and nobody
/// is marked as paid. `MathOverflow` where a lifetime counter does not fit
/// 64 bits.
pub open spec fn close_cycle(p: ProgressView) -> Result<ProgressView, HonouraryError> {
    if p.total_distributions + 1 > u64::MAX || p.total_creator_distributed + closing_remainder(p)
        > u64::MAX {
        Err(HonouraryError::MathOverflow)
    } else {
        Ok(
            ProgressView {
                day_completed: true,
                total_distributions: (p.total_distributions + 1) as u64,
                total_creator_distributed: (p.total_creator_distributed + closing_remainder(
                    p,
                )) as u64,
                persistent_carry_over: p.current_day_carry_over,
                paid: Set::empty(),
                ..p
            },
        )
    }
}

/// A page applied to the record `p` of an open cycle: the record and the
/// outcome, or why the page is refused.
///
/// The page is refused with `InvestorAlreadyPaid` where one of its
/// investors is marked as paid, and with `MathOverflow` where an amount or a
/// counter does not fit 64 bits. Else each investor is taken in turn by
/// `tally_step` and the page is settled by `settle_page`. A final page also
/// closes the cycle by `close_cycle` and asks for the creator's remainder.
pub open spec fn apply_page(
    p: ProgressView,
    policy: Policy,
    page_start: u32,
    page_size: u32,
    is_final_page: bool,
    now: i64,
    page: Seq<u64>,
    fees_claimed: Option<QuoteFeesClaimed>,
) -> Result<(ProgressView, CrankOutcomeView), HonouraryError> {
    let terms = page_terms(p, policy, page_start, page);
    if page_holds_paid(p, page_start, page.len()) {
        Err(HonouraryError::InvestorAlreadyPaid)
    } else {
        match tally_after(terms, tally_start(p, terms), page, page.len()) {
            None => Err(HonouraryError::MathOverflow),
            Some(t) => match settle_page(p, terms, t, page_start, page_size, now) {
                Err(e) => Err(e),
                Ok((paged, report)) => {
                    if !is_final_page {
                        Ok(
                            (
                                paged,
                                CrankOutcomeView {
                                    replayed: false,
                                    fees_claimed: fees_claimed,
                                    payouts: t.payouts,
                                    creator_payout: None,
                                    page: Some(report),
                                    day_closed: None,
                                },
                            ),
                        )
                    } else {
                        match close_cycle(paged) {
                            Err(e) => Err(e),
                            Ok(closed) => Ok(
                                (
                                    closed,
                                    CrankOutcomeView {
                                        replayed: false,
                                        fees_claimed: fees_claimed,
                                        payouts: t.payouts,
                                        creator_payout: Some(closing_remainder(paged) as u64),
                                        page: Some(report),
                                        day_closed: Some(
                                            CreatorPayoutDayClosed {
                                                vault: p.vault,
                                                creator_amount: closing_remainder(paged) as u64,
                                                total_distributed: paged.current_day_distributed,
                                                timestamp: now,
                                            },
                                        ),
                                    },
                                ),
                            ),
                        }
                    }
                },
            },
        }
    }
}

/// One call of the engine: the record and the outcome, or why the call is
/// refused.
///
/// The guard comes first, then the bounds of the page. A replay succeeds and
/// leaves the record as it is. The first page of a cycle is given the locked
/// amounts of all investors: their sum must fit 64 bits and be the total
/// that the caller states, and the claim with the dust of the cycle before
/// must fit 64 bits; the cycle is opened and the investors that the page
/// covers make up the page. Any other page is applied to the record as it
/// stands.
pub open spec fn crank(
    p: ProgressView,
    policy: Policy,
    page_start: u32,
    page_size: u32,
    total_locked_all_investors: u64,
    is_final_page: bool,
    now: i64,
    claimed: u64,
    locked: Seq<u64>,
) -> Result<(ProgressView, CrankOutcomeView), HonouraryError> {
    match page_admission(p, page_start, page_size, now) {
        Err(e) => Err(e),
        Ok(PageAdmission::Replay) => Ok((p, replay_outcome())),
        Ok(admission) => {
            if !page_shape_ok(
                policy,
                admission,
                page_start,
                page_size,
                is_final_page,
                locked.len(),
            ) {
                Err(HonouraryError::InvalidPagination)
            } else if admission == PageAdmission::NewCycle {
                if locked_sum(locked) > u64::MAX {
                    Err(HonouraryError::MathOverflow)
                } else if locked_sum(locked) != total_locked_all_investors {
                    Err(HonouraryError::InvalidTotalLockedAmount)
                } else if claimed + p.persistent_carry_over > u64::MAX {
                    Err(HonouraryError::MathOverflow)
                } else {
                    apply_page(
                        opened_cycle(p, now, claimed, total_locked_all_investors),
                        policy,
                        page_start,
                        page_size,
                        is_final_page,
                        now,
                        locked.take(page_cover(policy, page_start, page_size) as int),
                        Some(QuoteFeesClaimed { vault: p.vault, amount: claimed, timestamp: now }),
                    )
                }
            } else {
                apply_page(p, policy, page_start, page_size, is_final_page, now, locked, None)
            }
        },
    }
}

/// The guard: how the page stands to the record, or why it is refused.
pub fn admit_page(progress: &DistributionProgress, page_start: u32, page_size: u32, current_time: i64) -> (result:
    Result<PageAdmission, HonouraryError>)
    ensures
        result == page_admission(progress@, page_start, page_size, current_time),
{
    if page_size == 0 || page_size > MAX_PAGE_SIZE {
        return Err(HonouraryError::InvalidPagination);
    }
    if progress.day_completed {
        if !progress.can_distribute(current_time) {
            return Err(HonouraryError::CrankWindowNotReached);
        }
        if page_start != 0 {
            return Err(HonouraryError::InvalidPaginationSequence);
        }
        return Ok(PageAdmission::NewCycle);
    }
    let replays: bool = match progress.last_page_start {
        Some(start) => start == page_start,
        None => false,
    };
    if replays {
        Ok(PageAdmission::Replay)
    } else if page_start == progress.pagination_cursor {
        Ok(PageAdmission::Continue)
    } else {
        Err(HonouraryError::InvalidPaginationSequence)
    }
}

/// The account of a page, as the engine keeps it.
struct PageAccount {
    distributed: u64,
    dust: u64,
    shared: u64,
    payouts: Vec<InvestorPayout>,
}

/// Whether one of the `count` investors from `page_start` on is marked as
/// paid.
fn page_has_paid(progress: &DistributionProgress, page_start: u32, count: usize) -> (found: bool)
    requires
        page_start + count <= MAX_INVESTORS,
    ensures
        found == page_holds_paid(progress@, page_start, count as nat),
{
    let mut j: usize = 0;
    while j < count
        invariant
            j <= count,
            page_start + count <= MAX_INVESTORS,
            forall|index: int| page_start <= index < page_start + j ==> !progress@.paid.contains(index),
        decreases count - j,
    {
        if progress.is_investor_paid(page_start + j as u32) {
            assert(progress@.paid.contains(page_start + j as int));
            return true;
        }
        j += 1;
    }
    false
}

/// The locked total of the first `count` amounts.
fn page_locked_total(locked: &[u64], count: usize) -> (total: u128)
    requires
        count <= locked.len(),
        count <= MAX_INVESTORS,
    ensures
        total == locked_sum(locked@.take(count as int)),
{
    let ghost page = locked@.take(count as int);
    let mut total: u128 = 0;
    let mut j: usize = 0;
    while j < count
        invariant
            j <= count <= locked.len(),
            count <= MAX_INVESTORS,
            page == locked@.take(count as int),
            total == locked_sum(page.take(j as int)),
            total <= j * u64::MAX,
        decreases count - j,
    {
        proof {
            lemma_locked_sum_take(page, j as int);
        }
        total = total + locked[j] as u128;
        j += 1;
    }
    assert(page.take(count as int) =~= page);
    total
}

/// Works through the first `count` investors of `locked` in index order and
/// marks in `next` those that are paid.
fn tally_page(
    next: &mut DistributionProgress,
    page_start: u32,
    pool: u64,
    carry_in: u64,
    page_locked: u128,
    threshold: u64,
    daily_cap: Option<u64>,
    start_dust: u64,
    locked: &[u64],
    count: usize,
) -> (result: Result<PageAccount, HonouraryError>)
    requires
        count <= locked.len(),
        page_start + count <= MAX_INVESTORS,
        page_locked == locked_sum(locked@.take(count as int)),
    ensures
        ({
            let page = locked@.take(count as int);
            let terms = PageTerms {
                page_start: page_start as int,
                pool: pool as int,
                total_locked: old(next).current_day_total_locked_all as int,
                carry_in: carry_in as int,
                page_locked: page_locked as int,
                threshold: threshold as int,
                daily_cap: daily_cap,
            };
            let start = PageTally {
                distributed: old(next).current_day_distributed as int,
                dust: start_dust as int,
                shared: 0,
                payouts: Seq::empty(),
                marked: Set::empty(),
            };
            match tally_after(terms, start, page, count as nat) {
                None => result is Err && result->Err_0 == HonouraryError::MathOverflow,
                Some(t) => {
                    &&& result is Ok
                    &&& result->Ok_0.distributed == t.distributed
                    &&& result->Ok_0.dust == t.dust
                    &&& result->Ok_0.shared == t.shared
                    &&& result->Ok_0.payouts@ == t.payouts
                    &&& t.shared <= carry_in
                    &&& t.distributed >= old(next).current_day_distributed
                    &&& final(next)@ == (ProgressView {
                        paid: old(next)@.paid.union(t.marked),
                        ..old(next)@
                    })
                },
            }
        }),
{
    let ghost page = locked@.take(count as int);
    let total_locked: u64 = next.current_day_total_locked_all;
    let ghost terms = PageTerms {
        page_start: page_start as int,
        pool: pool as int,
        total_locked: total_locked as int,
        carry_in: carry_in as int,
        page_locked: page_locked as int,
        threshold: threshold as int,
        daily_cap: daily_cap,
    };
    let ghost start = PageTally {
        distributed: next.current_day_distributed as int,
        dust: start_dust as int,
        shared: 0,
        payouts: Seq::empty(),
        marked: Set::empty(),
    };
    let ghost marked: Set<int> = Set::empty();
    let mut distributed: u64 = next.current_day_distributed;
    let mut dust: u64 = start_dust;
    let mut shared: u64 = 0;
    let mut payouts: Vec<InvestorPayout> = Vec::new();
    let mut j: usize = 0;
    proof {
        assert(old(next)@.paid.union(marked) =~= old(next)@.paid);
    }
    while j < count
        invariant
            j <= count <= locked.len(),
            page_start + count <= MAX_INVESTORS,
            page == locked@.take(count as int),
            page_locked == locked_sum(page),
            terms == (PageTerms {
                page_start: page_start as int,
                pool: pool as int,
                total_locked: total_locked as int,
                carry_in: carry_in as int,
                page_locked: page_locked as int,
                threshold: threshold as int,
                daily_cap: daily_cap,
            }),
            total_locked == old(next).current_day_total_locked_all,
            start == (PageTally {
                distributed: old(next).current_day_distributed as int,
                dust: start_dust as int,
                shared: 0,
                payouts: Seq::empty(),
                marked: Set::empty(),
            }),
            tally_after(terms, start, page, j as nat) == Some(
                PageTally {
                    distributed: distributed as int,
                    dust: dust as int,
                    shared: shared as int,
                    payouts: payouts@,
                    marked: marked,
                },
            ),
            next@ == (ProgressView { paid: old(next)@.paid.union(marked), ..old(next)@ }),
        decreases count - j,
    {
        let locked_j: u64 = locked[j];
        let index: u32 = page_start + j as u32;
        let ghost before = PageTally {
            distributed: distributed as int,
            dust: dust as int,
            shared: shared as int,
            payouts: payouts@,
            marked: marked,
        };
        proof {
            assert(page[j as int] == locked_j);
            lemma_locked_sum_bounds(page);
            lemma_tally_accounts(terms, start, page, j as nat);
            lemma_tally_shared_step(terms, page, j as int);
            lemma_payout_not_negative(pool as int, locked_j as int, total_locked as int);
            assert(tally_after(terms, start, page, (j + 1) as nat) == tally_step(
                terms,
                before,
                j as int,
                locked_j as int,
            ));
        }
        let raw: u128 = if total_locked == 0 {
            0
        } else {
            assert(pool as int * locked_j as int <= u128::MAX) by (nonlinear_arith)
                requires
                    pool <= u64::MAX,
                    locked_j <= u64::MAX,
            ;
            (pool as u128) * (locked_j as u128) / (total_locked as u128)
        };
        assert(raw == individual_payout(pool as int, locked_j as int, total_locked as int));
        if raw > u64::MAX as u128 {
            proof {
                assert(investor_amount(terms, locked_j as int) > u64::MAX);
                lemma_tally_overflow_stays(terms, start, page, (j + 1) as nat, count as nat);
            }
            return Err(HonouraryError::MathOverflow);
        }
        let share: u128 = if page_locked == 0 {
            0
        } else {
            assert(carry_in as int * locked_j as int <= u128::MAX) by (nonlinear_arith)
                requires
                    carry_in <= u64::MAX,
                    locked_j <= u64::MAX,
            ;
            (carry_in as u128) * (locked_j as u128) / page_locked
        };
        assert(share == individual_payout(carry_in as int, locked_j as int, page_locked as int));
        let due: u128 = raw + share;
        assert(due == investor_amount(terms, locked_j as int));
        if due > u64::MAX as u128 {
            proof {
                lemma_tally_overflow_stays(terms, start, page, (j + 1) as nat, count as nat);
            }
            return Err(HonouraryError::MathOverflow);
        }
        let amount: u64 = due as u64;
        if (raw as u64) < threshold {
            if amount > u64::MAX - dust {
                proof {
                    lemma_tally_overflow_stays(terms, start, page, (j + 1) as nat, count as nat);
                }
                return Err(HonouraryError::MathOverflow);
            }
            dust = dust + amount;
        } else {
            let allowed: u64 = payout_under_cap(distributed, amount, daily_cap);
            if allowed > u64::MAX - distributed || amount - allowed > u64::MAX - dust {
                proof {
                    lemma_tally_overflow_stays(terms, start, page, (j + 1) as nat, count as nat);
                }
                return Err(HonouraryError::MathOverflow);
            }
            distributed = distributed + allowed;
            dust = dust + (amount - allowed);
            if allowed > 0 {
                payouts.push(InvestorPayout { investor_index: index, amount: allowed });
                let ghost unmarked = next@;
                match next.mark_investor_paid(index) {
                    Ok(()) => {},
                    Err(e) => {
                        return Err(e);
                    },
                }
                proof {
                    assert(unmarked.paid.insert(index as int) =~= old(next)@.paid.union(
                        marked.insert(index as int),
                    ));
                    marked = marked.insert(index as int);
                }
            }
        }
        shared = shared + share as u64;
        j += 1;
    }
    proof {
        lemma_tally_accounts(terms, start, page, count as nat);
        assert(page.take(count as int) =~= page);
        lemma_payouts_sum_within_whole(carry_in as int, page, page_locked as int);
    }
    Ok(PageAccount { distributed, dust, shared, payouts })
}

/// Checks the bounds of a page and tells how many investors it covers.
fn check_page_shape(
    policy: &Policy,
    admission: PageAdmission,
    page_start: u32,
    page_size: u32,
    is_final_page: bool,
    supplied: usize,
) -> (result: Result<usize, HonouraryError>)
    ensures
        page_shape_ok(*policy, admission, page_start, page_size, is_final_page, supplied as nat)
            ==> result == Ok::<usize, HonouraryError>(
            page_cover(*policy, page_start, page_size) as usize,
        ),
        !page_shape_ok(*policy, admission, page_start, page_size, is_final_page, supplied as nat)
            ==> result == Err::<usize, HonouraryError>(HonouraryError::InvalidPagination),
        result is Ok ==> result->Ok_0 <= supplied && page_start + result->Ok_0 <= MAX_INVESTORS,
{
    if page_size > u32::MAX - page_start {
        return Err(HonouraryError::InvalidPagination);
    }
    let page_end: u32 = page_start + page_size;
    if is_final_page != (page_end >= policy.total_investors) {
        return Err(HonouraryError::InvalidPagination);
    }
    let last: u32 = if page_end < policy.total_investors {
        page_end
    } else {
        policy.total_investors
    };
    let cover: u32 = if last > page_start {
        last - page_start
    } else {
        0
    };
    if cover > MAX_INVESTORS || page_start > MAX_INVESTORS - cover {
        return Err(HonouraryError::InvalidPagination);
    }
    let due: u32 = if admission == PageAdmission::NewCycle {
        policy.total_investors
    } else {
        cover
    };
    if supplied != due as usize {
        return Err(HonouraryError::InvalidPagination);
    }
    Ok(cover as usize)
}

/// Opens a new cycle in `next` from the locked amounts of all investors.
fn open_cycle(
    next: &mut DistributionProgress,
    current_time: i64,
    claimed: u64,
    total_locked_all_investors: u64,
    locked: &[u64],
) -> (result: Result<QuoteFeesClaimed, HonouraryError>)
    ensures
        locked_sum(locked@) > u64::MAX ==> result == Err::<QuoteFeesClaimed, HonouraryError>(
            HonouraryError::MathOverflow,
        ),
        locked_sum(locked@) <= u64::MAX && locked_sum(locked@) != total_locked_all_investors
            ==> result == Err::<QuoteFeesClaimed, HonouraryError>(
            HonouraryError::InvalidTotalLockedAmount,
        ),
        locked_sum(locked@) == total_locked_all_investors && claimed + old(
            next,
        ).persistent_carry_over > u64::MAX ==> result == Err::<QuoteFeesClaimed, HonouraryError>(
            HonouraryError::MathOverflow,
        ),
        locked_sum(locked@) == total_locked_all_investors && claimed + old(
            next,
        ).persistent_carry_over <= u64::MAX ==> result == Ok::<QuoteFeesClaimed, HonouraryError>(
            QuoteFeesClaimed { vault: old(next).vault, amount: claimed, timestamp: current_time },
        ) && final(next)@ == opened_cycle(
            old(next)@,
            current_time,
            claimed,
            total_locked_all_investors,
        ),
{
    proof {
        lemma_locked_sum_bounds(locked@);
    }
    let total: u64 = match calculate_total_locked_amounts(locked) {
        Ok(total) => total,
        Err(e) => {
            return Err(e);
        },
    };
    if total != total_locked_all_investors {
        return Err(HonouraryError::InvalidTotalLockedAmount);
    }
    if claimed > u64::MAX - next.persistent_carry_over {
        return Err(HonouraryError::MathOverflow);
    }
    next.start_new_day(current_time, claimed, total);
    Ok(QuoteFeesClaimed { vault: next.vault, amount: claimed, timestamp: current_time })
}

/// Settles the page in `next` once its investors are worked through.
fn settle(
    next: &mut DistributionProgress,
    before_page: u64,
    carry_in: u64,
    account: &PageAccount,
    page_start: u32,
    page_size: u32,
    current_time: i64,
) -> (result: Result<InvestorPayoutPage, HonouraryError>)
    requires
        page_start + page_size <= u32::MAX,
        account.shared <= carry_in,
        account.distributed >= before_page,
    ensures
        ({
            let dust = account.dust + (carry_in - account.shared);
            let page_paid = account.distributed - before_page;
            if dust > u64::MAX || old(next).total_investor_distributed + page_paid > u64::MAX {
                result == Err::<InvestorPayoutPage, HonouraryError>(HonouraryError::MathOverflow)
            } else {
                &&& result == Ok::<InvestorPayoutPage, HonouraryError>(
                    InvestorPayoutPage {
                        vault: old(next).vault,
                        page_start: page_start,
                        page_size: page_size,
                        investors_paid: account.payouts@.len() as u32,
                        total_paid: page_paid as u64,
                        dust_carried: dust as u64,
                        timestamp: current_time,
                    },
                )
                &&& final(next)@ == (ProgressView {
                    current_day_distributed: account.distributed,
                    current_day_carry_over: dust as u64,
                    pagination_cursor: (page_start + page_size) as u32,
                    total_investor_distributed: (old(next).total_investor_distributed
                        + page_paid) as u64,
                    last_page_start: Some(page_start),
                    ..old(next)@
                })
            }
        }),
{
    let unshared: u64 = carry_in - account.shared;
    if unshared > u64::MAX - account.dust {
        return Err(HonouraryError::MathOverflow);
    }
    let dust: u64 = account.dust + unshared;
    let page_paid: u64 = account.distributed - before_page;
    if page_paid > u64::MAX - next.total_investor_distributed {
        return Err(HonouraryError::MathOverflow);
    }
    next.current_day_distributed = account.distributed;
    next.current_day_carry_over = dust;
    next.pagination_cursor = page_start + page_size;
    next.total_investor_distributed = next.total_investor_distributed + page_paid;
    next.last_page_start = Some(page_start);
    Ok(
        InvestorPayoutPage {
            vault: next.vault,
            page_start: page_start,
            page_size: page_size,
            investors_paid: account.payouts.len() as u32,
            total_paid: page_paid,
            dust_carried: dust,
            timestamp: current_time,
        },
    )
}

/// Closes the cycle in `next` and returns the creator's remainder.
fn close(next: &mut DistributionProgress) -> (result: Result<u64, HonouraryError>)
    ensures
        match close_cycle(old(next)@) {
            Err(e) => result == Err::<u64, HonouraryError>(e),
            Ok(closed) => result == Ok::<u64, HonouraryError>(
                closing_remainder(old(next)@) as u64,
            ) && final(next)@ == closed,
        },
{
    let remainder: u64 = match calculate_creator_remainder(
        next.current_day_total_claimed,
        next.current_day_distributed,
        next.current_day_carry_over,
    ) {
        Ok(remainder) => remainder,
        Err(e) => {
            return Err(e);
        },
    };
    if next.total_distributions == u64::MAX || remainder > u64::MAX
        - next.total_creator_distributed {
        return Err(HonouraryError::MathOverflow);
    }
    next.complete_day(remainder);
    Ok(remainder)
}

/// Applies a page of the first `count` amounts of `locked` to `next`.
fn run_page(
    next: &mut DistributionProgress,
    policy: &Policy,
    page_start: u32,
    page_size: u32,
    is_final_page: bool,
    current_time: i64,
    locked: &[u64],
    count: usize,
    fees_claimed: Option<QuoteFeesClaimed>,
) -> (result: Result<CrankOutcome, HonouraryError>)
    requires
        count <= locked.len(),
        page_start + count <= MAX_INVESTORS,
        page_start + page_size <= u32::MAX,
    ensures
        match apply_page(
            old(next)@,
            *policy,
            page_start,
            page_size,
            is_final_page,
            current_time,
            locked@.take(count as int),
            fees_claimed,
        ) {
            Ok((record, outcome)) => {
                &&& result is Ok
                &&& result->Ok_0@ == outcome
                &&& final(next)@ == record
            },
            Err(e) => result is Err && result->Err_0 == e,
        },
{
    let ghost page = locked@.take(count as int);
    let ghost entered = next@;
    let ghost terms = page_terms(entered, *policy, page_start, page);
    if page_has_paid(next, page_start, count) {
        return Err(HonouraryError::InvestorAlreadyPaid);
    }
    let bps: u16 = policy.calculate_eligible_investor_share(next.current_day_total_locked_all);
    let pool: u64 = match calculate_investor_fee_amount(next.current_day_total_claimed, bps) {
        Ok(pool) => pool,
        Err(e) => {
            return Err(e);
        },
    };
    let carry: u64 = next.current_day_carry_over;
    let carry_in: u64 = if carry >= policy.min_payout_lamports {
        carry
    } else {
        0
    };
    let page_locked: u128 = page_locked_total(locked, count);
    let before_page: u64 = next.current_day_distributed;
    assert(terms == (PageTerms {
        page_start: page_start as int,
        pool: pool as int,
        total_locked: entered.current_day_total_locked_all as int,
        carry_in: carry_in as int,
        page_locked: page_locked as int,
        threshold: policy.min_payout_lamports as int,
        daily_cap: policy.daily_cap_lamports,
    }));
    let account = match tally_page(
        next,
        page_start,
        pool,
        carry_in,
        page_locked,
        policy.min_payout_lamports,
        policy.daily_cap_lamports,
        carry - carry_in,
        locked,
        count,
    ) {
        Ok(account) => account,
        Err(e) => {
            return Err(e);
        },
    };
    let ghost tally = tally_after(terms, tally_start(entered, terms), page, count as nat)->Some_0;
    let ghost marked = next@;
    let report = match settle(
        next,
        before_page,
        carry_in,
        &account,
        page_start,
        page_size,
        current_time,
    ) {
        Ok(report) => report,
        Err(e) => {
            return Err(e);
        },
    };
    let ghost paged = next@;
    assert(settle_page(entered, terms, tally, page_start, page_size, current_time)
        == Ok::<(ProgressView, InvestorPayoutPage), HonouraryError>((paged, report)));
    if !is_final_page {
        return Ok(
            CrankOutcome {
                replayed: false,
                fees_claimed: fees_claimed,
                payouts: account.payouts,
                creator_payout: None,
                page: Some(report),
                day_closed: None,
            },
        );
    }
    let total_distributed: u64 = next.current_day_distributed;
    let remainder: u64 = match close(next) {
        Ok(remainder) => remainder,
        Err(e) => {
            return Err(e);
        },
    };
    Ok(
        CrankOutcome {
            replayed: false,
            fees_claimed: fees_claimed,
            payouts: account.payouts,
            creator_payout: Some(remainder),
            page: Some(report),
            day_closed: Some(
                CreatorPayoutDayClosed {
                    vault: next.vault,
                    creator_amount: remainder,
                    total_distributed: total_distributed,
                    timestamp: current_time,
                },
            ),
        },
    )
}

/// One call of the distribution engine on the progress record of a vault.
///
/// `current_time` is the time of the call, `claimed` the fees that the
/// claim brought in (read only where the call opens a cycle, which
/// `admit_page` tells beforehand), and `locked` the locked amounts as read
/// for this call: those of all investors in index order on the first page of
/// a cycle, those of the page's investors on any other page.
///
/// The call is applied whole, as `crank` states it, or refused, and then
/// the record is left as it was. A replay also leaves it as it was.
pub fn handle_crank_distribution(
    progress: &mut DistributionProgress,
    policy: &Policy,
    page_start: u32,
    page_size: u32,
    total_locked_all_investors: u64,
    is_final_page: bool,
    current_time: i64,
    claimed: u64,
    locked: &[u64],
) -> (result: Result<CrankOutcome, HonouraryError>)
    ensures
        match crank(
            old(progress)@,
            *policy,
            page_start,
            page_size,
            total_locked_all_investors,
            is_final_page,
            current_time,
            claimed,
            locked@,
        ) {
            Ok((record, outcome)) => {
                &&& result is Ok
                &&& result->Ok_0@ == outcome
                &&& final(progress)@ == record
                &&& outcome.replayed ==> *final(progress) == *old(progress)
            },
            Err(e) => {
                &&& result is Err
                &&& result->Err_0 == e
                &&& *final(progress) == *old(progress)
            },
        },
{
    let admission = match admit_page(progress, page_start, page_size, current_time) {
        Ok(admission) => admission,
        Err(e) => {
            return Err(e);
        },
    };
    if admission == PageAdmission::Replay {
        return Ok(
            CrankOutcome {
                replayed: true,
                fees_claimed: None,
                payouts: Vec::new(),
                creator_payout: None,
                page: None,
                day_closed: None,
            },
        );
    }
    let count: usize = match check_page_shape(
        policy,
        admission,
        page_start,
        page_size,
        is_final_page,
        locked.len(),
    ) {
        Ok(count) => count,
        Err(e) => {
            return Err(e);
        },
    };
    let mut next: DistributionProgress = *progress;
    let mut fees_claimed: Option<QuoteFeesClaimed> = None;
    if admission == PageAdmission::NewCycle {
        match open_cycle(&mut next, current_time, claimed, total_locked_all_investors, locked) {
            Ok(event) => {
                fees_claimed = Some(event);
            },
            Err(e) => {
                return Err(e);
            },
        }
    } else {
        assert(locked@.take(count as int) =~= locked@);
    }
    match run_page(
        &mut next,
        policy,
        page_start,
        page_size,
        is_final_page,
        current_time,
        locked,
        count,
        fees_claimed,
    ) {
        Ok(outcome) => {
            *progress = next;
            Ok(outcome)
        },
        Err(e) => Err(e),
    }
}

} // verus!
