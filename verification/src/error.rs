//! Every way a call can be refused.

use vstd::prelude::*;

verus! {

/// Why a call was refused. A refused call changes nothing.
#[derive(Clone, Copy, Debug, PartialEq, Eq, Structural)]
pub enum HonouraryError {
    /// The pool's fee configuration admits fees in the base token.
    QuoteOnlyValidationFailed,
    /// A claim moved the base-token balance.
    BaseFeesDetected,
    /// The previous cycle started less than a day ago.
    CrankWindowNotReached,
    /// Page bounds out of range.
    InvalidPagination,
    /// A locked amount could not be read from its source.
    InsufficientStreamflowData,
    /// The cycle is already closed.
    DistributionAlreadyComplete,
    /// The pool or the policy values are not acceptable.
    InvalidPoolConfiguration,
    /// A computed amount does not fit its type.
    MathOverflow,
    /// Investor sources and destinations do not pair up.
    AccountCountMismatch,
    /// The daily cap would be exceeded.
    DailyCapExceeded,
    /// The position is not owned by the derived owner address.
    InvalidPositionOwnership,
    /// The page was already processed.
    PageAlreadyProcessed,
    /// The stated total of locked amounts differs from their sum.
    InvalidTotalLockedAmount,
    /// The page does not start at the cursor.
    InvalidPaginationSequence,
    /// An investor on the page was already paid in this cycle.
    InvestorAlreadyPaid,
}

impl HonouraryError {
    /// Position of the variant in the declaration, from zero.
    pub open spec fn ordinal(self) -> int {
        match self {
            HonouraryError::QuoteOnlyValidationFailed => 0,
            HonouraryError::BaseFeesDetected => 1,
            HonouraryError::CrankWindowNotReached => 2,
            HonouraryError::InvalidPagination => 3,
            HonouraryError::InsufficientStreamflowData => 4,
            HonouraryError::DistributionAlreadyComplete => 5,
            HonouraryError::InvalidPoolConfiguration => 6,
            HonouraryError::MathOverflow => 7,
            HonouraryError::AccountCountMismatch => 8,
            HonouraryError::DailyCapExceeded => 9,
            HonouraryError::InvalidPositionOwnership => 10,
            HonouraryError::PageAlreadyProcessed => 11,
            HonouraryError::InvalidTotalLockedAmount => 12,
            HonouraryError::InvalidPaginationSequence => 13,
            HonouraryError::InvestorAlreadyPaid => 14,
        }
    }

    /// The numeric code reported to clients: 6000 plus the ordinal.
    pub fn code(&self) -> (c: u32)
        ensures
            c == 6000 + self.ordinal(),
    {
        match self {
            HonouraryError::QuoteOnlyValidationFailed => 6000,
            HonouraryError::BaseFeesDetected => 6001,
            HonouraryError::CrankWindowNotReached => 6002,
            HonouraryError::InvalidPagination => 6003,
            HonouraryError::InsufficientStreamflowData => 6004,
            HonouraryError::DistributionAlreadyComplete => 6005,
            HonouraryError::InvalidPoolConfiguration => 6006,
            HonouraryError::MathOverflow => 6007,
            HonouraryError::AccountCountMismatch => 6008,
            HonouraryError::DailyCapExceeded => 6009,
            HonouraryError::InvalidPositionOwnership => 6010,
            HonouraryError::PageAlreadyProcessed => 6011,
            HonouraryError::InvalidTotalLockedAmount => 6012,
            HonouraryError::InvalidPaginationSequence => 6013,
            HonouraryError::InvestorAlreadyPaid => 6014,
        }
    }

    /// The text shown for each variant.
    pub open spec fn message_text(self) -> Seq<char> {
        match self {
            HonouraryError::QuoteOnlyValidationFailed =>
                "Quote-only validation failed: pool configuration allows base token fees"@,
            HonouraryError::BaseFeesDetected =>
                "Base token fees detected during fee claiming - distribution aborted"@,
            HonouraryError::CrankWindowNotReached =>
                "24-hour crank window not reached - distribution too early"@,
            HonouraryError::InvalidPagination =>
                "Invalid pagination parameters - check page start and size"@,
            HonouraryError::InsufficientStreamflowData =>
                "Insufficient Streamflow data - cannot read locked amounts"@,
            HonouraryError::DistributionAlreadyComplete =>
                "Distribution already completed for this day"@,
            HonouraryError::InvalidPoolConfiguration =>
                "Invalid pool configuration - not compatible with quote-only requirements"@,
            HonouraryError::MathOverflow => "Math overflow in distribution calculations"@,
            HonouraryError::AccountCountMismatch =>
                "Investor ATA count mismatch with Streamflow accounts"@,
            HonouraryError::DailyCapExceeded => "Daily distribution cap exceeded"@,
            HonouraryError::InvalidPositionOwnership => "Position not owned by program PDA"@,
            HonouraryError::PageAlreadyProcessed =>
                "Page already processed - cannot replay pages during active distribution"@,
            HonouraryError::InvalidTotalLockedAmount =>
                "Invalid total_locked_all_investors - does not match actual locked amounts"@,
            HonouraryError::InvalidPaginationSequence =>
                "Invalid pagination sequence - pages must be processed sequentially starting at cursor"@,
            HonouraryError::InvestorAlreadyPaid =>
                "Investor already paid in this distribution day - duplicate payment prevented"@,
        }
    }

    /// The message for this error.
    pub fn message(&self) -> (m: &'static str)
        ensures
            m@ == self.message_text(),
    {
        match self {
            HonouraryError::QuoteOnlyValidationFailed =>
                "Quote-only validation failed: pool configuration allows base token fees",
            HonouraryError::BaseFeesDetected =>
                "Base token fees detected during fee claiming - distribution aborted",
            HonouraryError::CrankWindowNotReached =>
                "24-hour crank window not reached - distribution too early",
            HonouraryError::InvalidPagination =>
                "Invalid pagination parameters - check page start and size",
            HonouraryError::InsufficientStreamflowData =>
                "Insufficient Streamflow data - cannot read locked amounts",
            HonouraryError::DistributionAlreadyComplete =>
                "Distribution already completed for this day",
            HonouraryError::InvalidPoolConfiguration =>
                "Invalid pool configuration - not compatible with quote-only requirements",
            HonouraryError::MathOverflow => "Math overflow in distribution calculations",
            HonouraryError::AccountCountMismatch =>
                "Investor ATA count mismatch with Streamflow accounts",
            HonouraryError::DailyCapExceeded => "Daily distribution cap exceeded",
            HonouraryError::InvalidPositionOwnership => "Position not owned by program PDA",
            HonouraryError::PageAlreadyProcessed =>
                "Page already processed - cannot replay pages during active distribution",
            HonouraryError::InvalidTotalLockedAmount =>
                "Invalid total_locked_all_investors - does not match actual locked amounts",
            HonouraryError::InvalidPaginationSequence =>
                "Invalid pagination sequence - pages must be processed sequentially starting at cursor",
            HonouraryError::InvestorAlreadyPaid =>
                "Investor already paid in this distribution day - duplicate payment prevented",
        }
    }
}

} // verus!
