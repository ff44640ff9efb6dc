//! The accounts of the liquidity venue, as far as the router reads them.

use vstd::prelude::*;
use vstd::slice::slice_subrange;
use crate::address::Address;

verus! {

/// Address of the venue's program.
pub const CP_AMM_PROGRAM_ID: [u8; 32] = [
    140, 82, 208, 129, 102, 37, 144, 86, 30, 208, 95, 156, 233, 72, 132, 244, 39, 198, 37, 166,
    186, 219, 90, 147, 67, 78, 161, 161, 187, 44, 242, 193,
];

/// The first bytes of a pool account.
pub const POOL_DISCRIMINATOR: [u8; 8] = [241, 154, 109, 4, 17, 177, 109, 188];

/// The first bytes of a position account.
pub const POSITION_DISCRIMINATOR: [u8; 8] = [170, 188, 143, 228, 122, 64, 247, 208];

/// Bytes that precede the fields in every account of the venue.
pub const DISCRIMINATOR_LEN: usize = 8;

/// The fee configuration of a pool: 160 bytes that the router does not
/// look into.
#[derive(Clone, Copy, Debug)]
pub struct PoolFeesStruct {
    pub data: [u64; 20],
}

/// Lifetime totals of a pool.
#[derive(Clone, Copy, Debug)]
pub struct PoolMetrics {
    pub total_lp_a_fee: u128,
    pub total_lp_b_fee: u128,
    pub total_protocol_a_fee: u64,
    pub total_protocol_b_fee: u64,
    pub total_partner_a_fee: u64,
    pub total_partner_b_fee: u64,
    pub total_position: u64,
    pub padding: u64,
}

/// One farming reward of a pool.
#[derive(Clone, Copy, Debug)]
pub struct RewardInfo {
    pub initialized: u8,
    pub reward_token_flag: u8,
    pub _padding_0: [u8; 6],
    pub _padding_1: [u8; 8],
    pub mint: Address,
    pub vault: Address,
    pub funder: Address,
    pub reward_duration: u64,
    pub reward_duration_end: u64,
    pub reward_rate: u128,
    pub reward_per_token_stored: [u8; 32],
    pub last_update_time: u64,
    pub cumulative_seconds_with_empty_liquidity_reward: u64,
}

/// A pool of the venue.
#[derive(Clone, Copy, Debug)]
pub struct Pool {
    pub pool_fees: PoolFeesStruct,
    pub token_a_mint: Address,
    pub token_b_mint: Address,
    pub token_a_vault: Address,
    pub token_b_vault: Address,
    /// Vault that may buy before the activation point.
    pub whitelisted_vault: Address,
    pub partner: Address,
    pub liquidity: u128,
    pub _padding: u128,
    pub protocol_a_fee: u64,
    pub protocol_b_fee: u64,
    pub partner_a_fee: u64,
    pub partner_b_fee: u64,
    pub sqrt_min_price: u128,
    pub sqrt_max_price: u128,
    pub sqrt_price: u128,
    /// A slot or a timestamp, by `activation_type`.
    pub activation_point: u64,
    /// 0 by slot, 1 by timestamp.
    pub activation_type: u8,
    /// 0 enabled, 1 disabled.
    pub pool_status: u8,
    pub token_a_flag: u8,
    pub token_b_flag: u8,
    /// 0 collects fees in both tokens, 1 in token B only. There is no
    /// other mode.
    pub collect_fee_mode: u8,
    pub pool_type: u8,
    pub _padding_0: [u8; 2],
    pub fee_a_per_liquidity: [u8; 32],
    pub fee_b_per_liquidity: [u8; 32],
    pub permanent_lock_liquidity: u128,
    pub metrics: PoolMetrics,
    pub creator: Address,
    pub _padding_1: [u64; 6],
    pub reward_infos: [RewardInfo; 2],
}

/// Lifetime totals of a position.
#[derive(Clone, Copy, Debug)]
pub struct PositionMetrics {
    pub total_claimed_a_fee: u64,
    pub total_claimed_b_fee: u64,
}

/// One farming reward of a position.
#[derive(Clone, Copy, Debug)]
pub struct UserRewardInfo {
    pub reward_per_token_checkpoint: [u8; 32],
    pub reward_pendings: u64,
    pub total_claimed_rewards: u64,
}

/// A position in a pool of the venue.
#[derive(Clone, Copy, Debug)]
pub struct Position {
    pub pool: Address,
    pub nft_mint: Address,
    pub fee_a_per_token_checkpoint: [u8; 32],
    pub fee_b_per_token_checkpoint: [u8; 32],
    pub fee_a_pending: u64,
    pub fee_b_pending: u64,
    pub unlocked_liquidity: u128,
    pub vested_liquidity: u128,
    pub permanent_locked_liquidity: u128,
    pub metrics: PositionMetrics,
    pub reward_infos: [UserRewardInfo; 2],
    pub padding: [u128; 6],
}

/// The venue's program.
pub struct CpAmm;

impl CpAmm {
    /// Address of the venue's program.
    pub fn id() -> (address: Address)
        ensures
            address.bytes == CP_AMM_PROGRAM_ID,
    {
        Address { bytes: CP_AMM_PROGRAM_ID }
    }
}

/// Whether every byte of the address is zero.
pub open spec fn is_zero_address(address: Address) -> bool {
    forall|i: int| 0 <= i < 32 ==> address.bytes[i] == 0u8
}

/// Whether every byte is zero.
pub open spec fn zero_bytes(bytes: Seq<u8>) -> bool {
    forall|i: int| 0 <= i < bytes.len() ==> bytes[i] == 0u8
}

/// Whether the fee configuration holds zeros only.
pub open spec fn zero_pool_fees(fees: PoolFeesStruct) -> bool {
    forall|i: int| 0 <= i < 20 ==> fees.data[i] == 0u64
}

/// The totals of a pool that has seen nothing.
pub open spec fn zero_pool_metrics() -> PoolMetrics {
    PoolMetrics {
        total_lp_a_fee: 0,
        total_lp_b_fee: 0,
        total_protocol_a_fee: 0,
        total_protocol_b_fee: 0,
        total_partner_a_fee: 0,
        total_partner_b_fee: 0,
        total_position: 0,
        padding: 0,
    }
}

/// Whether the reward holds zeros only.
pub open spec fn zero_reward_info(info: RewardInfo) -> bool {
    &&& info.initialized == 0
    &&& info.reward_token_flag == 0
    &&& zero_bytes(info._padding_0@)
    &&& zero_bytes(info._padding_1@)
    &&& is_zero_address(info.mint)
    &&& is_zero_address(info.vault)
    &&& is_zero_address(info.funder)
    &&& info.reward_duration == 0
    &&& info.reward_duration_end == 0
    &&& info.reward_rate == 0
    &&& zero_bytes(info.reward_per_token_stored@)
    &&& info.last_update_time == 0
    &&& info.cumulative_seconds_with_empty_liquidity_reward == 0
}

/// Whether the pool holds zeros only.
pub open spec fn zero_pool(pool: Pool) -> bool {
    &&& zero_pool_fees(pool.pool_fees)
    &&& is_zero_address(pool.token_a_mint)
    &&& is_zero_address(pool.token_b_mint)
    &&& is_zero_address(pool.token_a_vault)
    &&& is_zero_address(pool.token_b_vault)
    &&& is_zero_address(pool.whitelisted_vault)
    &&& is_zero_address(pool.partner)
    &&& pool.liquidity == 0
    &&& pool._padding == 0
    &&& pool.protocol_a_fee == 0
    &&& pool.protocol_b_fee == 0
    &&& pool.partner_a_fee == 0
    &&& pool.partner_b_fee == 0
    &&& pool.sqrt_min_price == 0
    &&& pool.sqrt_max_price == 0
    &&& pool.sqrt_price == 0
    &&& pool.activation_point == 0
    &&& pool.activation_type == 0
    &&& pool.pool_status == 0
    &&& pool.token_a_flag == 0
    &&& pool.token_b_flag == 0
    &&& pool.collect_fee_mode == 0
    &&& pool.pool_type == 0
    &&& zero_bytes(pool._padding_0@)
    &&& zero_bytes(pool.fee_a_per_liquidity@)
    &&& zero_bytes(pool.fee_b_per_liquidity@)
    &&& pool.permanent_lock_liquidity == 0
    &&& pool.metrics == zero_pool_metrics()
    &&& is_zero_address(pool.creator)
    &&& forall|i: int| 0 <= i < 6 ==> pool._padding_1[i] == 0u64
    &&& forall|i: int| 0 <= i < 2 ==> zero_reward_info(#[trigger] pool.reward_infos[i])
}

/// Whether the reward holds zeros only.
pub open spec fn zero_user_reward_info(info: UserRewardInfo) -> bool {
    &&& zero_bytes(info.reward_per_token_checkpoint@)
    &&& info.reward_pendings == 0
    &&& info.total_claimed_rewards == 0
}

/// Whether the position holds zeros only.
pub open spec fn zero_position(position: Position) -> bool {
    &&& is_zero_address(position.pool)
    &&& is_zero_address(position.nft_mint)
    &&& zero_bytes(position.fee_a_per_token_checkpoint@)
    &&& zero_bytes(position.fee_b_per_token_checkpoint@)
    &&& position.fee_a_pending == 0
    &&& position.fee_b_pending == 0
    &&& position.unlocked_liquidity == 0
    &&& position.vested_liquidity == 0
    &&& position.permanent_locked_liquidity == 0
    &&& position.metrics == (PositionMetrics { total_claimed_a_fee: 0, total_claimed_b_fee: 0 })
    &&& forall|i: int| 0 <= i < 2 ==> zero_user_reward_info(#[trigger] position.reward_infos[i])
    &&& forall|i: int| 0 <= i < 6 ==> position.padding[i] == 0u128
}

/// The address of 32 zero bytes.
pub fn zero_address() -> (address: Address)
    ensures
        is_zero_address(address),
{
    Address { bytes: [0u8; 32] }
}

impl Default for PoolFeesStruct {
    fn default() -> (fees: Self)
        ensures
            zero_pool_fees(fees),
    {
        PoolFeesStruct { data: [0u64; 20] }
    }
}

impl Default for PoolMetrics {
    fn default() -> (metrics: Self)
        ensures
            metrics == zero_pool_metrics(),
    {
        PoolMetrics {
            total_lp_a_fee: 0,
            total_lp_b_fee: 0,
            total_protocol_a_fee: 0,
            total_protocol_b_fee: 0,
            total_partner_a_fee: 0,
            total_partner_b_fee: 0,
            total_position: 0,
            padding: 0,
        }
    }
}

impl Default for RewardInfo {
    fn default() -> (info: Self)
        ensures
            zero_reward_info(info),
    {
        RewardInfo {
            initialized: 0,
            reward_token_flag: 0,
            _padding_0: [0u8; 6],
            _padding_1: [0u8; 8],
            mint: zero_address(),
            vault: zero_address(),
            funder: zero_address(),
            reward_duration: 0,
            reward_duration_end: 0,
            reward_rate: 0,
            reward_per_token_stored: [0u8; 32],
            last_update_time: 0,
            cumulative_seconds_with_empty_liquidity_reward: 0,
        }
    }
}

impl Default for Pool {
    fn default() -> (pool: Self)
        ensures
            zero_pool(pool),
    {
        let reward = RewardInfo::default();
        Pool {
            pool_fees: PoolFeesStruct::default(),
            token_a_mint: zero_address(),
            token_b_mint: zero_address(),
            token_a_vault: zero_address(),
            token_b_vault: zero_address(),
            whitelisted_vault: zero_address(),
            partner: zero_address(),
            liquidity: 0,
            _padding: 0,
            protocol_a_fee: 0,
            protocol_b_fee: 0,
            partner_a_fee: 0,
            partner_b_fee: 0,
            sqrt_min_price: 0,
            sqrt_max_price: 0,
            sqrt_price: 0,
            activation_point: 0,
            activation_type: 0,
            pool_status: 0,
            token_a_flag: 0,
            token_b_flag: 0,
            collect_fee_mode: 0,
            pool_type: 0,
            _padding_0: [0u8; 2],
            fee_a_per_liquidity: [0u8; 32],
            fee_b_per_liquidity: [0u8; 32],
            permanent_lock_liquidity: 0,
            metrics: PoolMetrics::default(),
            creator: zero_address(),
            _padding_1: [0u64; 6],
            reward_infos: [reward;2],
        }
    }
}

impl Default for PositionMetrics {
    fn default() -> (metrics: Self)
        ensures
            metrics == (PositionMetrics { total_claimed_a_fee: 0, total_claimed_b_fee: 0 }),
    {
        PositionMetrics { total_claimed_a_fee: 0, total_claimed_b_fee: 0 }
    }
}

impl Default for UserRewardInfo {
    fn default() -> (info: Self)
        ensures
            zero_user_reward_info(info),
    {
        UserRewardInfo {
            reward_per_token_checkpoint: [0u8; 32],
            reward_pendings: 0,
            total_claimed_rewards: 0,
        }
    }
}

impl Default for Position {
    fn default() -> (position: Self)
        ensures
            zero_position(position),
    {
        let reward = UserRewardInfo::default();
        Position {
            pool: zero_address(),
            nft_mint: zero_address(),
            fee_a_per_token_checkpoint: [0u8; 32],
            fee_b_per_token_checkpoint: [0u8; 32],
            fee_a_pending: 0,
            fee_b_pending: 0,
            unlocked_liquidity: 0,
            vested_liquidity: 0,
            permanent_locked_liquidity: 0,
            metrics: PositionMetrics::default(),
            reward_infos: [reward;2],
            padding: [0u128; 6],
        }
    }
}

impl Pool {
    /// The program that owns every pool account.
    pub fn owner() -> (address: Address)
        ensures
            address.bytes == CP_AMM_PROGRAM_ID,
    {
        Address { bytes: CP_AMM_PROGRAM_ID }
    }
}

impl Position {
    /// The program that owns every position account.
    pub fn owner() -> (address: Address)
        ensures
            address.bytes == CP_AMM_PROGRAM_ID,
    {
        Address { bytes: CP_AMM_PROGRAM_ID }
    }
}

/// The fields of an account of the venue: what follows the discriminator,
/// which is skipped and not compared. `None` exactly when the data are
/// shorter than a discriminator.
pub fn account_body(data: &[u8]) -> (body: Option<&[u8]>)
    ensures
        data@.len() < 8 ==> body is None,
        data@.len() >= 8 ==> body is Some && body->Some_0@ == data@.skip(8),
{
    if data.len() < DISCRIMINATOR_LEN {
        return None;
    }
    let body = slice_subrange(data, DISCRIMINATOR_LEN, data.len());
    assert(data@.subrange(8, data@.len() as int) =~= data@.skip(8));
    Some(body)
}

} // verus!
