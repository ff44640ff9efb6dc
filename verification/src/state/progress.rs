//! The progress record of a vault: where its current cycle stands.

use vstd::prelude::*;
use vstd::slice::slice_to_vec;
use crate::address::Address;
use crate::constants::PROGRESS_SEED;
use crate::error::HonouraryError;
use crate::utils::pda::progress_seeds;

verus! {

/// Whether bit `bit` of `byte` is set.
pub open spec fn bit_is_set(byte: u8, bit: u8) -> bool {
    byte & (1u8 << bit) != 0
}

/// The progress record as mathematics: the counters as they are, the bitmap
/// as the set of investor indices whose bit is set.
pub struct ProgressView {
    pub vault: Address,
    pub last_distribution_ts: i64,
    pub current_day_distributed: u64,
    pub current_day_carry_over: u64,
    pub pagination_cursor: u32,
    pub day_completed: bool,
    pub current_day_total_claimed: u64,
    pub bump: u8,
    pub total_distributions: u64,
    pub total_investor_distributed: u64,
    pub total_creator_distributed: u64,
    pub current_day_total_locked_all: u64,
    pub persistent_carry_over: u64,
    pub last_page_start: Option<u32>,
    pub paid: Set<int>,
}

/// The progress record. Only the distribution engine changes it.
#[derive(Clone, Copy, Debug)]
pub struct DistributionProgress {
    /// The vault this record tracks.
    pub vault: Address,
    /// When the current or last cycle started.
    pub last_distribution_ts: i64,
    /// Paid to investors in the current cycle.
    pub current_day_distributed: u64,
    /// Dust of the current cycle that waits to be paid.
    pub current_day_carry_over: u64,
    /// Investor index at which the next page must start.
    pub pagination_cursor: u32,
    /// Whether the cycle is closed. A new record starts closed.
    pub day_completed: bool,
    /// What the current cycle has to hand out: the claim and the dust of the
    /// cycle before.
    pub current_day_total_claimed: u64,
    /// Bump seed of the record's address.
    pub bump: u8,
    /// Cycles closed so far.
    pub total_distributions: u64,
    /// Paid to investors over all cycles.
    pub total_investor_distributed: u64,
    /// Paid to the creator over all cycles.
    pub total_creator_distributed: u64,
    /// Locked over all investors when the current cycle started.
    pub current_day_total_locked_all: u64,
    /// Dust of the last closed cycle: it joins the next claim.
    pub persistent_carry_over: u64,
    /// Where the last page taken in the current cycle began; `None` before
    /// the first page of a cycle is taken.
    pub last_page_start: Option<u32>,
    /// One bit per investor index, set once the investor is paid in the
    /// current cycle: bit `i % 8` of byte `i / 8`.
    pub paid_investor_bitmap: [u8; 256],
}

impl View for DistributionProgress {
    type V = ProgressView;

    open spec fn view(&self) -> ProgressView {
        ProgressView {
            vault: self.vault,
            last_distribution_ts: self.last_distribution_ts,
            current_day_distributed: self.current_day_distributed,
            current_day_carry_over: self.current_day_carry_over,
            pagination_cursor: self.pagination_cursor,
            day_completed: self.day_completed,
            current_day_total_claimed: self.current_day_total_claimed,
            bump: self.bump,
            total_distributions: self.total_distributions,
            total_investor_distributed: self.total_investor_distributed,
            total_creator_distributed: self.total_creator_distributed,
            current_day_total_locked_all: self.current_day_total_locked_all,
            persistent_carry_over: self.persistent_carry_over,
            last_page_start: self.last_page_start,
            paid: self.paid_set(),
        }
    }
}

/// Whether `bitmap` marks investor `index`: bit `index % 8` of byte
/// `index / 8`. No index from 2048 on is ever marked.
pub open spec fn bitmap_marks(bitmap: [u8; 256], index: int) -> bool {
    0 <= index < 2048 && bit_is_set(bitmap[index / 8], (index % 8) as u8)
}

/// The investors that `bitmap` marks.
pub open spec fn bitmap_paid(bitmap: [u8; 256]) -> Set<int> {
    Set::new(|index: int| bitmap_marks(bitmap, index))
}

impl DistributionProgress {
    /// Whether the bitmap marks investor `index` as paid.
    pub open spec fn is_paid(&self, index: int) -> bool {
        bitmap_marks(self.paid_investor_bitmap, index)
    }

    /// The investors that the bitmap marks as paid.
    pub open spec fn paid_set(&self) -> Set<int> {
        bitmap_paid(self.paid_investor_bitmap)
    }

    /// The seeds with which the record's address signs: the seeds of the
    /// progress record of its vault and its bump seed.
    pub fn seeds(&self) -> (seeds: Vec<Vec<u8>>)
        ensures
            seeds.deep_view() == progress_seeds(self.vault).push(seq![self.bump]),
    {
        let mut seeds: Vec<Vec<u8>> = Vec::new();
        seeds.push(slice_to_vec(PROGRESS_SEED.as_slice()));
        seeds.push(slice_to_vec(self.vault.bytes.as_slice()));
        seeds.push(vec![self.bump]);
        assert(seeds.deep_view() =~~= progress_seeds(self.vault).push(seq![self.bump]));
        seeds
    }

    /// Whether a page may be taken at `current_timestamp`: always while a
    /// cycle is open, else from a day after the last cycle started.
    pub open spec fn may_distribute(&self, current_timestamp: i64) -> bool {
        self.day_completed ==> current_timestamp >= self.last_distribution_ts + 86400
    }

    /// Check if enough time has passed for the next distribution.
    pub fn can_distribute(&self, current_timestamp: i64) -> (allowed: bool)
        ensures
            allowed == self.may_distribute(current_timestamp),
    {
        if self.day_completed {
            (current_timestamp as i128) >= (self.last_distribution_ts as i128) + 86400
        } else {
            true
        }
    }

    /// Opens a new cycle: the claim and the dust of the cycle before make up
    /// what it hands out, everything counted per cycle starts again, no
    /// page is remembered and nobody is marked as paid. The sum of claim
    /// and dust must fit 64 bits.
    pub fn start_new_day(&mut self, current_timestamp: i64, total_claimed: u64, total_locked_all: u64)
        requires
            total_claimed + old(self).persistent_carry_over <= u64::MAX,
        ensures
            final(self)@ == (ProgressView {
                last_distribution_ts: current_timestamp,
                current_day_distributed: 0,
                current_day_carry_over: 0,
                pagination_cursor: 0,
                day_completed: false,
                current_day_total_claimed: (total_claimed + old(self).persistent_carry_over) as u64,
                current_day_total_locked_all: total_locked_all,
                persistent_carry_over: 0,
                last_page_start: None,
                paid: Set::empty(),
                ..old(self)@
            }),
    {
        self.last_distribution_ts = current_timestamp;
        self.current_day_distributed = 0;
        self.current_day_carry_over = 0;
        self.pagination_cursor = 0;
        self.day_completed = false;
        self.current_day_total_claimed = total_claimed + self.persistent_carry_over;
        self.current_day_total_locked_all = total_locked_all;
        self.persistent_carry_over = 0;
        self.last_page_start = None;
        self.reset_bitmap();
    }

    /// Closes the cycle: counts it, credits the creator's amount, keeps the
    /// cycle's dust for the next one and marks nobody as paid.
    pub fn complete_day(&mut self, creator_amount: u64)
        requires
            old(self).total_distributions < u64::MAX,
            old(self).total_creator_distributed + creator_amount <= u64::MAX,
        ensures
            final(self)@ == (ProgressView {
                day_completed: true,
                total_distributions: (old(self).total_distributions + 1) as u64,
                total_creator_distributed: (old(self).total_creator_distributed
                    + creator_amount) as u64,
                persistent_carry_over: old(self).current_day_carry_over,
                paid: Set::empty(),
                ..old(self)@
            }),
    {
        self.day_completed = true;
        self.total_distributions = self.total_distributions + 1;
        self.total_creator_distributed = self.total_creator_distributed + creator_amount;
        self.persistent_carry_over = self.current_day_carry_over;
        self.reset_bitmap();
    }

    /// Check if an investor has already been paid in this cycle.
    pub fn is_investor_paid(&self, investor_index: u32) -> (paid: bool)
        ensures
            paid == self.is_paid(investor_index as int),
            paid == self@.paid.contains(investor_index as int),
    {
        let byte_idx: usize = (investor_index / 8) as usize;
        let bit_idx: u8 = (investor_index % 8) as u8;
        if byte_idx >= 256 {
            return false;
        }
        (self.paid_investor_bitmap[byte_idx] & (1u8 << bit_idx)) != 0
    }

    /// Mark an investor as paid. `InvalidPagination` exactly when the index
    /// is beyond the bitmap; the record is then unchanged.
    pub fn mark_investor_paid(&mut self, investor_index: u32) -> (result: Result<(), HonouraryError>)
        ensures
            investor_index >= 2048 ==> result == Err::<(), HonouraryError>(
                HonouraryError::InvalidPagination,
            ) && *final(self) == *old(self),
            investor_index < 2048 ==> result is Ok && final(self)@ == (ProgressView {
                paid: old(self)@.paid.insert(investor_index as int),
                ..old(self)@
            }),
    {
        let byte_idx: usize = (investor_index / 8) as usize;
        let bit_idx: u8 = (investor_index % 8) as u8;
        if byte_idx >= 256 {
            return Err(HonouraryError::InvalidPagination);
        }
        let before: u8 = self.paid_investor_bitmap[byte_idx];
        let after: u8 = before | (1u8 << bit_idx);
        self.paid_investor_bitmap[byte_idx] = after;
        proof {
            assert(bit_is_set(after, bit_idx)) by (bit_vector)
                requires
                    after == before | (1u8 << bit_idx),
                    bit_idx < 8,
            ;
            assert forall|other: u8| other < 8 && other != bit_idx implies bit_is_set(after, other)
                == bit_is_set(before, other) by {
                assert(bit_is_set(after, other) == bit_is_set(before, other)) by (bit_vector)
                    requires
                        after == before | (1u8 << bit_idx),
                        bit_idx < 8,
                        other < 8,
                        other != bit_idx,
                ;
            }
            assert forall|index: int|
                bitmap_marks(final(self).paid_investor_bitmap, index) == (bitmap_marks(
                    old(self).paid_investor_bitmap,
                    index,
                ) || index == investor_index) by {
                if 0 <= index < 2048 {
                    if index / 8 == byte_idx as int {
                        if index != investor_index as int {
                            assert((index % 8) as u8 != bit_idx);
                        }
                    }
                }
            }
            assert(final(self)@.paid =~= old(self)@.paid.insert(investor_index as int));
        }
        Ok(())
    }

    /// Marks nobody as paid.
    pub fn reset_bitmap(&mut self)
        ensures
            final(self)@ == (ProgressView { paid: Set::empty(), ..old(self)@ }),
    {
        self.paid_investor_bitmap = [0u8; 256];
        proof {
            assert forall|index: int| !bitmap_marks(final(self).paid_investor_bitmap, index) by {
                if 0 <= index < 2048 {
                    let bit = (index % 8) as u8;
                    assert(!bit_is_set(0u8, bit)) by (bit_vector);
                }
            }
            assert(final(self)@.paid =~= Set::<int>::empty());
        }
    }
}

} // verus!
