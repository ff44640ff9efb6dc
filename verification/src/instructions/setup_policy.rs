//! Setting a vault up: its policy and the progress record of its first
//! cycle.

use vstd::prelude::*;
use crate::address::Address;
use crate::constants::BASIS_POINTS_DIVISOR;
use crate::constants::MIN_PAYOUT_THRESHOLD;
use crate::error::HonouraryError;
use crate::events::PolicySetup;
use crate::state::policy::Policy;
use crate::state::policy::PolicyParams;
use crate::state::progress::DistributionProgress;
use crate::state::progress::ProgressView;

verus! {

/// What a policy may hold: a share of at most the whole, an allocation and
/// an investor count above zero, and a payout threshold of at least
/// `MIN_PAYOUT_THRESHOLD`.
pub open spec fn policy_params_valid(params: PolicyParams) -> bool {
    &&& params.investor_fee_share_bps <= BASIS_POINTS_DIVISOR
    &&& params.y0_total_allocation > 0
    &&& params.min_payout_lamports >= MIN_PAYOUT_THRESHOLD
    &&& params.total_investors > 0
}

/// The policy record made of the parameters.
pub open spec fn policy_of(vault: Address, params: PolicyParams, bump: u8, now: i64) -> Policy {
    Policy {
        vault: vault,
        creator_wallet: params.creator_wallet,
        investor_fee_share_bps: params.investor_fee_share_bps,
        daily_cap_lamports: params.daily_cap_lamports,
        min_payout_lamports: params.min_payout_lamports,
        y0_total_allocation: params.y0_total_allocation,
        total_investors: params.total_investors,
        bump: bump,
        created_at: now,
        updated_at: now,
    }
}

/// The progress record of a vault that has seen no cycle: closed, so that
/// the first cycle can be opened, with every counter at zero, no page
/// remembered and nobody marked as paid.
pub open spec fn initial_progress(vault: Address, bump: u8) -> ProgressView {
    ProgressView {
        vault: vault,
        last_distribution_ts: 0,
        current_day_distributed: 0,
        current_day_carry_over: 0,
        pagination_cursor: 0,
        day_completed: true,
        current_day_total_claimed: 0,
        bump: bump,
        total_distributions: 0,
        total_investor_distributed: 0,
        total_creator_distributed: 0,
        current_day_total_locked_all: 0,
        persistent_carry_over: 0,
        last_page_start: None,
        paid: Set::empty(),
    }
}

/// What setting a vault up yields.
#[derive(Clone, Copy, Debug)]
pub struct PolicySetupOutcome {
    pub policy: Policy,
    pub progress: DistributionProgress,
    pub event: PolicySetup,
}

/// Checks the parameters: `InvalidPoolConfiguration` exactly when they are
/// not valid.
pub fn validate_policy_params(params: &PolicyParams) -> (result: Result<(), HonouraryError>)
    ensures
        policy_params_valid(*params) ==> result is Ok,
        !policy_params_valid(*params) ==> result == Err::<(), HonouraryError>(
            HonouraryError::InvalidPoolConfiguration,
        ),
{
    if params.investor_fee_share_bps > 10000 {
        return Err(HonouraryError::InvalidPoolConfiguration);
    }
    if params.y0_total_allocation == 0 {
        return Err(HonouraryError::InvalidPoolConfiguration);
    }
    if params.min_payout_lamports < MIN_PAYOUT_THRESHOLD {
        return Err(HonouraryError::InvalidPoolConfiguration);
    }
    if params.total_investors == 0 {
        return Err(HonouraryError::InvalidPoolConfiguration);
    }
    Ok(())
}

/// Sets up the policy of `vault` and the progress record of its first
/// cycle, at time `now`, with the bump seeds of the two records.
/// `InvalidPoolConfiguration` exactly when the parameters are not valid.
pub fn handle_setup_policy(
    vault: Address,
    params: PolicyParams,
    policy_bump: u8,
    progress_bump: u8,
    now: i64,
) -> (result: Result<PolicySetupOutcome, HonouraryError>)
    ensures
        !policy_params_valid(params) ==> result is Err && result->Err_0
            == HonouraryError::InvalidPoolConfiguration,
        policy_params_valid(params) ==> {
            &&& result is Ok
            &&& result->Ok_0.policy == policy_of(vault, params, policy_bump, now)
            &&& result->Ok_0.progress@ == initial_progress(vault, progress_bump)
            &&& result->Ok_0.event == (PolicySetup {
                vault: vault,
                creator_wallet: params.creator_wallet,
                investor_fee_share_bps: params.investor_fee_share_bps,
                y0_total_allocation: params.y0_total_allocation,
                timestamp: now,
            })
        },
{
    match validate_policy_params(&params) {
        Ok(()) => {},
        Err(e) => {
            return Err(e);
        },
    }
    let policy = Policy {
        vault: vault,
        creator_wallet: params.creator_wallet,
        investor_fee_share_bps: params.investor_fee_share_bps,
        daily_cap_lamports: params.daily_cap_lamports,
        min_payout_lamports: params.min_payout_lamports,
        y0_total_allocation: params.y0_total_allocation,
        total_investors: params.total_investors,
        bump: policy_bump,
        created_at: now,
        updated_at: now,
    };
    let mut progress = DistributionProgress {
        vault: vault,
        last_distribution_ts: 0,
        current_day_distributed: 0,
        current_day_carry_over: 0,
        pagination_cursor: 0,
        day_completed: true,
        current_day_total_claimed: 0,
        bump: progress_bump,
        total_distributions: 0,
        total_investor_distributed: 0,
        total_creator_distributed: 0,
        current_day_total_locked_all: 0,
        persistent_carry_over: 0,
        last_page_start: None,
        paid_investor_bitmap: [0u8; 256],
    };
    progress.reset_bitmap();
    let event = PolicySetup {
        vault: vault,
        creator_wallet: params.creator_wallet,
        investor_fee_share_bps: params.investor_fee_share_bps,
        y0_total_allocation: params.y0_total_allocation,
        timestamp: now,
    };
    Ok(PolicySetupOutcome { policy, progress, event })
}

} // verus!
