//! Locked amounts as the vesting ledger reports them.

use vstd::prelude::*;
use crate::address::Address;
use crate::error::HonouraryError;
use crate::utils::shares::lemma_locked_sum_prefix;
use crate::utils::shares::lemma_locked_sum_take;
use crate::utils::shares::locked_sum;

verus! {

/// The total locked over the investors whose locked amounts are given.
/// `MathOverflow` exactly when the total does not fit 64 bits.
pub fn calculate_total_locked_amounts(individual_locked: &[u64]) -> (result: Result<u64, HonouraryError>)
    ensures
        locked_sum(individual_locked@) <= u64::MAX ==> result == Ok::<u64, HonouraryError>(
            locked_sum(individual_locked@) as u64,
        ),
        locked_sum(individual_locked@) > u64::MAX ==> result == Err::<u64, HonouraryError>(
            HonouraryError::MathOverflow,
        ),
{
    let mut total_locked: u64 = 0;
    let mut i: usize = 0;
    while i < individual_locked.len()
        invariant
            i <= individual_locked.len(),
            total_locked == locked_sum(individual_locked@.take(i as int)),
        decreases individual_locked.len() - i,
    {
        let locked: u64 = individual_locked[i];
        proof {
            lemma_locked_sum_take(individual_locked@, i as int);
            lemma_locked_sum_prefix(individual_locked@, i as int + 1);
        }
        if locked > u64::MAX - total_locked {
            return Err(HonouraryError::MathOverflow);
        }
        total_locked = total_locked + locked;
        i += 1;
    }
    assert(individual_locked@.take(i as int) =~= individual_locked@);
    Ok(total_locked)
}

/// Address of the vesting ledger's program on the main network.
pub const STREAMFLOW_PROGRAM_ID: &'static str = "strmRqUCoQUgGUan5YhzUZa6KqdzwX5L6FpUxfmKg5m";

/// Address of the vesting ledger's program on the development network.
pub const STREAMFLOW_DEVNET_PROGRAM_ID: &'static str =
    "HqDGZjaVRXJ9MGRQEw7qDc2rAr6iH1n1kAQdCZaCMfMZ";

/// Where the two accounts of an investor stand among the accounts given
/// with a call.
#[derive(Clone, Copy, Debug, PartialEq, Eq, Structural)]
pub struct InvestorData {
    /// Position of the account that holds the investor's stream.
    pub stream_account: usize,
    /// Position of the account that receives the investor's payouts.
    pub investor_ata: usize,
}

/// What the accounts of a stream show before its data are read.
#[derive(Clone, Copy, Debug)]
pub struct StreamAccount {
    /// The program that owns the account.
    pub owner: Address,
    /// Length of the account's data.
    pub data_len: usize,
}

/// What the vesting ledger's own reader takes from a stream.
#[derive(Clone, Copy, Debug, PartialEq, Eq, Structural)]
pub struct StreamAmounts {
    /// Deposited in the stream, net of fees.
    pub net_amount_deposited: u64,
    /// What the recipient may claim at the time of reading.
    pub available_to_claim: u64,
}

/// The accounts of the investors of a page, two for each investor: the
/// stream at twice the investor's index, the destination right after it.
pub open spec fn investor_accounts(page_start: u32, page_size: u32) -> Seq<InvestorData> {
    Seq::new(
        page_size as nat,
        |k: int|
            InvestorData {
                stream_account: (2 * (page_start + k)) as usize,
                investor_ata: (2 * (page_start + k) + 1) as usize,
            },
    )
}

/// Finds the accounts of the investors of a page among `account_count`
/// accounts. `InvalidPagination` exactly when the accounts do not reach to
/// the end of the page.
pub fn parse_investor_accounts(account_count: usize, page_start: u32, page_size: u32) -> (result:
    Result<Vec<InvestorData>, HonouraryError>)
    ensures
        2 * (page_start + page_size) > account_count ==> result is Err && result->Err_0
            == HonouraryError::InvalidPagination,
        2 * (page_start + page_size) <= account_count ==> result is Ok && result->Ok_0@
            == investor_accounts(page_start, page_size),
{
    let end: u64 = 2 * (page_start as u64 + page_size as u64);
    if end > account_count as u64 {
        return Err(HonouraryError::InvalidPagination);
    }
    let mut investors: Vec<InvestorData> = Vec::new();
    let mut k: u32 = 0;
    while k < page_size
        invariant
            k <= page_size,
            2 * (page_start + page_size) <= account_count,
            investors@ == investor_accounts(page_start, k),
        decreases page_size - k,
    {
        let stream: usize = 2 * (page_start as usize + k as usize);
        investors.push(InvestorData { stream_account: stream, investor_ata: stream + 1 });
        k += 1;
        assert(investors@ =~= investor_accounts(page_start, k));
    }
    Ok(investors)
}

/// What is locked in a stream: what was deposited less what may be claimed,
/// never below zero.
pub open spec fn locked_of(amounts: StreamAmounts) -> u64 {
    if amounts.net_amount_deposited > amounts.available_to_claim {
        (amounts.net_amount_deposited - amounts.available_to_claim) as u64
    } else {
        0
    }
}

/// The locked amount of a stream, from what the ledger's own reader took
/// from the data of its account, `None` where it could read no stream from
/// them. `InsufficientStreamflowData` exactly where no stream was read: data
/// that are no stream give no amount, not even zero.
pub fn read_locked_amount_from_stream(contract: Option<StreamAmounts>) -> (result: Result<
    u64,
    HonouraryError,
>)
    ensures
        contract is Some ==> result == Ok::<u64, HonouraryError>(locked_of(contract->Some_0)),
        contract is None ==> result == Err::<u64, HonouraryError>(
            HonouraryError::InsufficientStreamflowData,
        ),
{
    match contract {
        Some(amounts) => {
            if amounts.net_amount_deposited > amounts.available_to_claim {
                Ok(amounts.net_amount_deposited - amounts.available_to_claim)
            } else {
                Ok(0)
            }
        },
        None => Err(HonouraryError::InsufficientStreamflowData),
    }
}

/// Whether every stream account is owned by the ledger's program and holds
/// data.
pub open spec fn streams_valid(streams: Seq<StreamAccount>, program_id: Address) -> bool {
    forall|i: int|
        0 <= i < streams.len() ==> (#[trigger] streams[i]).owner == program_id && streams[i].data_len
            > 0
}

/// Validates the stream accounts of a page: `InsufficientStreamflowData`
/// exactly when one of them is not owned by the ledger's program or holds
/// no data.
pub fn validate_streamflow_accounts(streams: &[StreamAccount], streamflow_program_id: &Address) -> (result:
    Result<(), HonouraryError>)
    ensures
        streams_valid(streams@, *streamflow_program_id) ==> result is Ok,
        !streams_valid(streams@, *streamflow_program_id) ==> result == Err::<(), HonouraryError>(
            HonouraryError::InsufficientStreamflowData,
        ),
{
    let mut i: usize = 0;
    while i < streams.len()
        invariant
            i <= streams.len(),
            forall|j: int|
                0 <= j < i ==> (#[trigger] streams@[j]).owner == *streamflow_program_id
                    && streams@[j].data_len > 0,
        decreases streams.len() - i,
    {
        if streams[i].owner != *streamflow_program_id {
            return Err(HonouraryError::InsufficientStreamflowData);
        }
        if streams[i].data_len == 0 {
            return Err(HonouraryError::InsufficientStreamflowData);
        }
        i += 1;
    }
    Ok(())
}

} // verus!
