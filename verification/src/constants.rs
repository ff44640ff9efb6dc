//! Seeds, limits and units shared by the whole crate.

use vstd::prelude::*;

verus! {

/// Seed of every address derived for a vault: the bytes of `vault`.
pub const VAULT_SEED: [u8; 5] = [118, 97, 117, 108, 116];

/// Seed of the position owner: the bytes of `investor_fee_pos_owner`.
pub const INVESTOR_FEE_POS_OWNER_SEED: [u8; 22] = [
    105, 110, 118, 101, 115, 116, 111, 114, 95, 102, 101, 101, 95, 112, 111, 115, 95, 111, 119,
    110, 101, 114,
];

/// Seed of the policy record: the bytes of `policy`.
pub const POLICY_SEED: [u8; 6] = [112, 111, 108, 105, 99, 121];

/// Seed of the progress record: the bytes of `progress`.
pub const PROGRESS_SEED: [u8; 8] = [112, 114, 111, 103, 114, 101, 115, 115];

/// Seed of a treasury account: the bytes of `treasury`.
pub const TREASURY_SEED: [u8; 8] = [116, 114, 101, 97, 115, 117, 114, 121];

/// Length of one distribution cycle in seconds.
pub const SECONDS_PER_DAY: i64 = 86400;

/// The whole, in basis points.
pub const BASIS_POINTS_DIVISOR: u64 = 10000;

/// Scale for fixed-point ratios.
pub const PRECISION_MULTIPLIER: u64 = 1_000_000;

/// Most investors one page may cover.
pub const MAX_PAGE_SIZE: u32 = 50;

/// Smallest payout threshold a policy may configure.
pub const MIN_PAYOUT_THRESHOLD: u64 = 1000;

/// The daily cap that caps nothing.
pub const MAX_DAILY_CAP: u64 = u64::MAX;

/// Bytes in the paid-investor bitmap.
pub const BITMAP_BYTES: usize = 256;

/// Hard ceiling on investor indices: the bitmap has one bit for each.
pub const MAX_INVESTORS: u32 = 2048;

pub const ERR_QUOTE_VALIDATION_FAILED: u32 = 6000;

pub const ERR_BASE_FEES_DETECTED: u32 = 6001;

pub const ERR_CRANK_WINDOW_NOT_REACHED: u32 = 6002;

pub const ERR_INVALID_PAGINATION: u32 = 6003;

} // verus!
