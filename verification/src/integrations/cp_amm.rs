//! What the router asks of the liquidity venue and what it checks of the
//! answer.
//!
//! The venue is called by whoever runs the router. The router says in which
//! order the venue takes the accounts, what the instruction holds, and what
//! the treasuries must show before and after a claim.

use vstd::prelude::*;
use vstd::slice::slice_to_vec;
use anchor_lang::AccountDeserialize;
use anchor_spl::token_interface::TokenAccount;
use crate::address::Address;
use crate::cp_amm_types::Pool;
use crate::error::HonouraryError;

verus! {

/// The first bytes of the venue's instruction that creates a position.
pub const CREATE_POSITION_DISCRIMINATOR: [u8; 8] = [48, 215, 197, 153, 96, 203, 180, 133];

/// The first bytes of the venue's instruction that claims the fees of a
/// position.
pub const CLAIM_POSITION_FEE_DISCRIMINATOR: [u8; 8] = [180, 38, 154, 17, 133, 33, 162, 211];

/// The first bytes of the venue's instruction that adds liquidity.
pub const ADD_LIQUIDITY_DISCRIMINATOR: [u8; 8] = [181, 157, 89, 67, 143, 182, 52, 72];

/// The error type of the ledger's framework.
#[verifier::external_type_specification]
#[verifier::external_body]
pub struct ExAnchorError(anchor_lang::error::Error);

/// The amount that a token account holds, as the token program's library
/// reads it from the account's data; `None` where it reads no token account
/// from them.
pub uninterp spec fn token_account_amount(data: Seq<u8>) -> Option<u64>;

/// Calls `TokenAccount::try_deserialize` of `anchor_spl::token_interface`
/// and takes the field `amount` of what it gives. Nothing is claimed of the
/// amount but that it is the one which that function reads from these data,
/// and that the call fails where it reads none.
#[verifier::external_body]
fn unpack_token_amount(data: &[u8]) -> (amount: Result<u64, anchor_lang::error::Error>)
    ensures
        amount is Ok <==> token_account_amount(data@) is Some,
        amount is Ok ==> token_account_amount(data@) == Some(amount->Ok_0),
{
    let mut buffer: &[u8] = data;
    TokenAccount::try_deserialize(&mut buffer).map(|account| account.amount)
}

/// What the two treasuries of a vault hold.
#[derive(Clone, Copy, Debug, PartialEq, Eq, Structural)]
pub struct TreasuryBalances {
    /// Held in the quote token.
    pub quote: u64,
    /// Held in the base token: meant to stay as it is.
    pub base: u64,
}

/// Reads what the two treasuries hold from the data of their accounts. It
/// fails exactly when one of them is read as no token account.
pub fn treasury_balances(treasury_data: &[u8], base_treasury_data: &[u8]) -> (result: Result<
    TreasuryBalances,
    anchor_lang::error::Error,
>)
    ensures
        result is Ok <==> token_account_amount(treasury_data@) is Some && token_account_amount(
            base_treasury_data@,
        ) is Some,
        result is Ok ==> token_account_amount(treasury_data@) == Some(result->Ok_0.quote)
            && token_account_amount(base_treasury_data@) == Some(result->Ok_0.base),
{
    let quote: u64 = match unpack_token_amount(treasury_data) {
        Ok(amount) => amount,
        Err(e) => {
            return Err(e);
        },
    };
    let base: u64 = match unpack_token_amount(base_treasury_data) {
        Ok(amount) => amount,
        Err(e) => {
            return Err(e);
        },
    };
    Ok(TreasuryBalances { quote, base })
}

/// What a claim brought in, by what the treasuries held before and after
/// it.
///
/// Any change of the base balance taints the claim: `BaseFeesDetected`.
/// Else the claim is what the quote balance has grown by; `MathOverflow`
/// where it has shrunk.
pub open spec fn quote_claimed(before: TreasuryBalances, after: TreasuryBalances) -> Result<
    u64,
    HonouraryError,
> {
    if before.base != after.base {
        Err(HonouraryError::BaseFeesDetected)
    } else if after.quote < before.quote {
        Err(HonouraryError::MathOverflow)
    } else {
        Ok((after.quote - before.quote) as u64)
    }
}

/// Checks a claim by what the treasuries held right before and right after
/// it, and tells what it brought in.
pub fn claim_position_fees_quote_only(before: TreasuryBalances, after: TreasuryBalances) -> (result: Result<
    u64,
    HonouraryError,
>)
    ensures
        result == quote_claimed(before, after),
{
    if before.base != after.base {
        return Err(HonouraryError::BaseFeesDetected);
    }
    if after.quote < before.quote {
        return Err(HonouraryError::MathOverflow);
    }
    Ok(after.quote - before.quote)
}

/// Whether the quote mint is token A of the pool.
pub fn quote_is_token_a(pool: &Pool, quote_mint: &Address) -> (is_a: bool)
    ensures
        is_a == (pool.token_a_mint == *quote_mint),
{
    pool.token_a_mint == *quote_mint
}

/// Puts what belongs to the quote token and what belongs to the base token
/// in the order in which the venue takes them: token A first, token B
/// second.
pub fn order_by_token_layout<T>(quote_is_token_a: bool, quote: T, base: T) -> (ordered: (T, T))
    ensures
        quote_is_token_a ==> ordered == (quote, base),
        !quote_is_token_a ==> ordered == (base, quote),
{
    if quote_is_token_a {
        (quote, base)
    } else {
        (base, quote)
    }
}

/// The first `len` bytes of a number, low byte first.
pub open spec fn low_byte_first(value: int, len: nat) -> Seq<u8>
    decreases len,
{
    if len == 0 {
        Seq::empty()
    } else {
        seq![(value % 256) as u8] + low_byte_first(value / 256, (len - 1) as nat)
    }
}

/// Appends the first `len` bytes of a number, low byte first.
fn push_low_byte_first(out: &mut Vec<u8>, value: u128, len: usize)
    ensures
        final(out)@ == old(out)@ + low_byte_first(value as int, len as nat),
{
    let mut rest: u128 = value;
    let mut i: usize = 0;
    assert(out@ + low_byte_first(rest as int, len as nat) == old(out)@ + low_byte_first(
        value as int,
        len as nat,
    ));
    while i < len
        invariant
            i <= len,
            out@ + low_byte_first(rest as int, (len - i) as nat) == old(out)@ + low_byte_first(
                value as int,
                len as nat,
            ),
        decreases len - i,
    {
        let ghost before = out@;
        let byte: u8 = (rest % 256) as u8;
        out.push(byte);
        proof {
            assert(before.push(byte) + low_byte_first(rest as int / 256, (len - i - 1) as nat)
                =~= before + low_byte_first(rest as int, (len - i) as nat));
        }
        rest = rest / 256;
        i += 1;
    }
    assert(out@ + low_byte_first(rest as int, 0) =~= out@);
}

/// The data of the instruction that adds liquidity: the discriminator, the
/// liquidity in 16 bytes and the two thresholds in 8 bytes each, every
/// number with its low byte first.
pub open spec fn add_liquidity_data(
    liquidity_delta: u128,
    token_a_amount_threshold: u64,
    token_b_amount_threshold: u64,
) -> Seq<u8> {
    ADD_LIQUIDITY_DISCRIMINATOR@ + low_byte_first(liquidity_delta as int, 16) + low_byte_first(
        token_a_amount_threshold as int,
        8,
    ) + low_byte_first(token_b_amount_threshold as int, 8)
}

/// Builds the data of the instruction that adds liquidity. `MathOverflow`
/// exactly when no liquidity is to be added.
pub fn add_liquidity_instruction_data(
    liquidity_delta: u128,
    token_a_amount_threshold: u64,
    token_b_amount_threshold: u64,
) -> (result: Result<Vec<u8>, HonouraryError>)
    ensures
        liquidity_delta == 0 ==> result is Err && result->Err_0 == HonouraryError::MathOverflow,
        liquidity_delta > 0 ==> result is Ok && result->Ok_0@ == add_liquidity_data(
            liquidity_delta,
            token_a_amount_threshold,
            token_b_amount_threshold,
        ),
{
    if liquidity_delta == 0 {
        return Err(HonouraryError::MathOverflow);
    }
    let mut data: Vec<u8> = slice_to_vec(ADD_LIQUIDITY_DISCRIMINATOR.as_slice());
    push_low_byte_first(&mut data, liquidity_delta, 16);
    push_low_byte_first(&mut data, token_a_amount_threshold as u128, 8);
    push_low_byte_first(&mut data, token_b_amount_threshold as u128, 8);
    Ok(data)
}

/// The accounts that the venue's instructions take.
#[derive(Clone, Copy, Debug, PartialEq, Eq, Structural)]
pub enum VenueAccount {
    PoolAuthority,
    Pool,
    Position,
    PositionNftMint,
    PositionNftAccount,
    /// The derived address that owns the position.
    PositionOwner,
    Payer,
    QuoteTreasury,
    BaseTreasury,
    QuoteVault,
    BaseVault,
    QuoteMint,
    BaseMint,
    QuoteTokenProgram,
    BaseTokenProgram,
    TokenProgram,
    SystemProgram,
    EventAuthority,
    /// The venue's program itself.
    Program,
}

/// An account as an instruction of the venue takes it.
#[derive(Clone, Copy, Debug, PartialEq, Eq, Structural)]
pub struct AccountUse {
    pub account: VenueAccount,
    pub is_signer: bool,
    pub is_writable: bool,
}

/// An account that is only read.
pub open spec fn read_only(account: VenueAccount) -> AccountUse {
    AccountUse { account: account, is_signer: false, is_writable: false }
}

/// An account that is written.
pub open spec fn writable(account: VenueAccount) -> AccountUse {
    AccountUse { account: account, is_signer: false, is_writable: true }
}

/// An account that signs and is only read.
pub open spec fn signer(account: VenueAccount) -> AccountUse {
    AccountUse { account: account, is_signer: true, is_writable: false }
}

/// An account that signs and is written.
pub open spec fn writable_signer(account: VenueAccount) -> AccountUse {
    AccountUse { account: account, is_signer: true, is_writable: true }
}

/// What belongs to token A of the pool: to the quote token where the quote
/// mint is token A, else to the base token.
pub open spec fn token_a(quote_is_token_a: bool, quote: VenueAccount, base: VenueAccount) -> VenueAccount {
    if quote_is_token_a {
        quote
    } else {
        base
    }
}

/// What belongs to token B of the pool.
pub open spec fn token_b(quote_is_token_a: bool, quote: VenueAccount, base: VenueAccount) -> VenueAccount {
    if quote_is_token_a {
        base
    } else {
        quote
    }
}

/// The accounts of the instruction that creates a position, in the
/// venue's order.
pub open spec fn create_position_account_uses() -> Seq<AccountUse> {
    seq![
        signer(VenueAccount::PositionOwner),
        writable_signer(VenueAccount::PositionNftMint),
        writable(VenueAccount::PositionNftAccount),
        writable(VenueAccount::Pool),
        writable(VenueAccount::Position),
        read_only(VenueAccount::PoolAuthority),
        writable_signer(VenueAccount::Payer),
        read_only(VenueAccount::TokenProgram),
        read_only(VenueAccount::SystemProgram),
        read_only(VenueAccount::EventAuthority),
        read_only(VenueAccount::Program),
    ]
}

/// The accounts of the instruction that claims the fees of a position, in
/// the venue's order: token A before token B, whichever of them the quote
/// token is.
pub open spec fn claim_fee_account_uses(quote_is_token_a: bool) -> Seq<AccountUse> {
    let q = quote_is_token_a;
    seq![
        read_only(VenueAccount::PoolAuthority),
        read_only(VenueAccount::Pool),
        writable(VenueAccount::Position),
        writable(token_a(q, VenueAccount::QuoteTreasury, VenueAccount::BaseTreasury)),
        writable(token_b(q, VenueAccount::QuoteTreasury, VenueAccount::BaseTreasury)),
        writable(token_a(q, VenueAccount::QuoteVault, VenueAccount::BaseVault)),
        writable(token_b(q, VenueAccount::QuoteVault, VenueAccount::BaseVault)),
        read_only(token_a(q, VenueAccount::QuoteMint, VenueAccount::BaseMint)),
        read_only(token_b(q, VenueAccount::QuoteMint, VenueAccount::BaseMint)),
        read_only(VenueAccount::PositionNftAccount),
        signer(VenueAccount::PositionOwner),
        read_only(token_a(q, VenueAccount::QuoteTokenProgram, VenueAccount::BaseTokenProgram)),
        read_only(token_b(q, VenueAccount::QuoteTokenProgram, VenueAccount::BaseTokenProgram)),
        read_only(VenueAccount::EventAuthority),
        read_only(VenueAccount::Program),
    ]
}

/// The accounts of the instruction that adds liquidity, in the venue's
/// order: token A before token B, whichever of them the quote token is.
pub open spec fn add_liquidity_account_uses(quote_is_token_a: bool) -> Seq<AccountUse> {
    let q = quote_is_token_a;
    seq![
        writable(VenueAccount::Pool),
        writable(VenueAccount::Position),
        writable(token_a(q, VenueAccount::QuoteTreasury, VenueAccount::BaseTreasury)),
        writable(token_b(q, VenueAccount::QuoteTreasury, VenueAccount::BaseTreasury)),
        writable(token_a(q, VenueAccount::QuoteVault, VenueAccount::BaseVault)),
        writable(token_b(q, VenueAccount::QuoteVault, VenueAccount::BaseVault)),
        read_only(token_a(q, VenueAccount::QuoteMint, VenueAccount::BaseMint)),
        read_only(token_b(q, VenueAccount::QuoteMint, VenueAccount::BaseMint)),
        read_only(VenueAccount::PositionNftAccount),
        signer(VenueAccount::PositionOwner),
        read_only(token_a(q, VenueAccount::QuoteTokenProgram, VenueAccount::BaseTokenProgram)),
        read_only(token_b(q, VenueAccount::QuoteTokenProgram, VenueAccount::BaseTokenProgram)),
        read_only(VenueAccount::EventAuthority),
        read_only(VenueAccount::Program),
    ]
}

fn reads(account: VenueAccount) -> (usage: AccountUse)
    ensures
        usage == read_only(account),
{
    AccountUse { account, is_signer: false, is_writable: false }
}

fn writes(account: VenueAccount) -> (usage: AccountUse)
    ensures
        usage == writable(account),
{
    AccountUse { account, is_signer: false, is_writable: true }
}

fn signs(account: VenueAccount) -> (usage: AccountUse)
    ensures
        usage == signer(account),
{
    AccountUse { account, is_signer: true, is_writable: false }
}

fn signs_and_writes(account: VenueAccount) -> (usage: AccountUse)
    ensures
        usage == writable_signer(account),
{
    AccountUse { account, is_signer: true, is_writable: true }
}

/// The accounts and the data of the instruction that creates the honorary
/// position.
pub fn create_honorary_position() -> (instruction: (Vec<AccountUse>, Vec<u8>))
    ensures
        instruction.0@ == create_position_account_uses(),
        instruction.1@ == CREATE_POSITION_DISCRIMINATOR@,
{
    let mut accounts: Vec<AccountUse> = Vec::new();
    accounts.push(signs(VenueAccount::PositionOwner));
    accounts.push(signs_and_writes(VenueAccount::PositionNftMint));
    accounts.push(writes(VenueAccount::PositionNftAccount));
    accounts.push(writes(VenueAccount::Pool));
    accounts.push(writes(VenueAccount::Position));
    accounts.push(reads(VenueAccount::PoolAuthority));
    accounts.push(signs_and_writes(VenueAccount::Payer));
    accounts.push(reads(VenueAccount::TokenProgram));
    accounts.push(reads(VenueAccount::SystemProgram));
    accounts.push(reads(VenueAccount::EventAuthority));
    accounts.push(reads(VenueAccount::Program));
    assert(accounts@ =~= create_position_account_uses());
    (accounts, slice_to_vec(CREATE_POSITION_DISCRIMINATOR.as_slice()))
}

/// The accounts by token layout that the claim and the adding of liquidity
/// share, from the treasuries on.
fn push_token_accounts(accounts: &mut Vec<AccountUse>, quote_is_token_a: bool)
    ensures
        final(accounts)@ == old(accounts)@ + claim_fee_account_uses(quote_is_token_a).subrange(
            3,
            15,
        ),
{
    let (treasury_a, treasury_b) = order_by_token_layout(
        quote_is_token_a,
        VenueAccount::QuoteTreasury,
        VenueAccount::BaseTreasury,
    );
    let (vault_a, vault_b) = order_by_token_layout(
        quote_is_token_a,
        VenueAccount::QuoteVault,
        VenueAccount::BaseVault,
    );
    let (mint_a, mint_b) = order_by_token_layout(
        quote_is_token_a,
        VenueAccount::QuoteMint,
        VenueAccount::BaseMint,
    );
    let (program_a, program_b) = order_by_token_layout(
        quote_is_token_a,
        VenueAccount::QuoteTokenProgram,
        VenueAccount::BaseTokenProgram,
    );
    accounts.push(writes(treasury_a));
    accounts.push(writes(treasury_b));
    accounts.push(writes(vault_a));
    accounts.push(writes(vault_b));
    accounts.push(reads(mint_a));
    accounts.push(reads(mint_b));
    accounts.push(reads(VenueAccount::PositionNftAccount));
    accounts.push(signs(VenueAccount::PositionOwner));
    accounts.push(reads(program_a));
    accounts.push(reads(program_b));
    accounts.push(reads(VenueAccount::EventAuthority));
    accounts.push(reads(VenueAccount::Program));
    assert(accounts@ =~= old(accounts)@ + claim_fee_account_uses(quote_is_token_a).subrange(
        3,
        15,
    ));
}

/// The accounts and the data of the instruction that claims the fees of
/// the honorary position.
pub fn claim_position_fee_instruction(quote_is_token_a: bool) -> (instruction: (
    Vec<AccountUse>,
    Vec<u8>,
))
    ensures
        instruction.0@ == claim_fee_account_uses(quote_is_token_a),
        instruction.1@ == CLAIM_POSITION_FEE_DISCRIMINATOR@,
{
    let mut accounts: Vec<AccountUse> = Vec::new();
    accounts.push(reads(VenueAccount::PoolAuthority));
    accounts.push(reads(VenueAccount::Pool));
    accounts.push(writes(VenueAccount::Position));
    push_token_accounts(&mut accounts, quote_is_token_a);
    assert(accounts@ =~= claim_fee_account_uses(quote_is_token_a));
    (accounts, slice_to_vec(CLAIM_POSITION_FEE_DISCRIMINATOR.as_slice()))
}

/// The accounts of the instruction that adds liquidity to the honorary
/// position.
pub fn add_liquidity_accounts(quote_is_token_a: bool) -> (accounts: Vec<AccountUse>)
    ensures
        accounts@ == add_liquidity_account_uses(quote_is_token_a),
{
    let mut accounts: Vec<AccountUse> = Vec::new();
    accounts.push(writes(VenueAccount::Pool));
    accounts.push(writes(VenueAccount::Position));
    push_token_accounts(&mut accounts, quote_is_token_a);
    assert(accounts@ =~= add_liquidity_account_uses(quote_is_token_a));
    accounts
}

} // verus!
