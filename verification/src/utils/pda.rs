//! The addresses that the router derives for a vault.
//!
//! An address is derived from seeds and the address of a program: the
//! search for it is the ledger's own and is taken from its library.

use vstd::prelude::*;
use vstd::slice::slice_to_vec;
use anchor_lang::prelude::Pubkey;
use crate::address::Address;
use crate::constants::INVESTOR_FEE_POS_OWNER_SEED;
use crate::constants::POLICY_SEED;
use crate::constants::PROGRESS_SEED;
use crate::constants::TREASURY_SEED;
use crate::constants::VAULT_SEED;

verus! {

/// The address that the ledger derives from `seeds` for the program
/// `program_id`, with the bump seed found for it; `None` where the ledger
/// finds none.
pub uninterp spec fn program_address(seeds: Seq<Seq<u8>>, program_id: Seq<u8>) -> Option<
    (Seq<u8>, u8),
>;

/// A derived address and its bump seed as plain bytes.
pub open spec fn derived_bytes(found: Option<(Address, u8)>) -> Option<(Seq<u8>, u8)> {
    match found {
        Some((address, bump)) => Some((address.bytes@, bump)),
        None => None,
    }
}

/// Calls `Pubkey::try_find_program_address` of `solana_pubkey`, as
/// `anchor_lang` hands it on. Nothing is claimed of the address but that it
/// is the one which that function gives for these seeds and this program.
#[verifier::external_body]
fn find_program_address(seeds: &Vec<Vec<u8>>, program_id: &Address) -> (found: Option<(Address, u8)>)
    ensures
        derived_bytes(found) == program_address(seeds.deep_view(), program_id.bytes@),
{
    let slices: Vec<&[u8]> = seeds.iter().map(|seed| seed.as_slice()).collect();
    let program = Pubkey::new_from_array(program_id.bytes);
    Pubkey::try_find_program_address(&slices, &program).map(
        |(key, bump)| (Address { bytes: key.to_bytes() }, bump),
    )
}

/// The seeds of the position owner of a vault.
pub open spec fn position_owner_seeds(vault: Address) -> Seq<Seq<u8>> {
    seq![VAULT_SEED@, vault.bytes@, INVESTOR_FEE_POS_OWNER_SEED@]
}

/// The seeds of the policy record of a vault.
pub open spec fn policy_seeds(vault: Address) -> Seq<Seq<u8>> {
    seq![POLICY_SEED@, vault.bytes@]
}

/// The seeds of the progress record of a vault.
pub open spec fn progress_seeds(vault: Address) -> Seq<Seq<u8>> {
    seq![PROGRESS_SEED@, vault.bytes@]
}

/// The seeds of the treasury of a vault for a mint.
pub open spec fn treasury_seeds(vault: Address, quote_mint: Address) -> Seq<Seq<u8>> {
    seq![TREASURY_SEED@, vault.bytes@, quote_mint.bytes@]
}

/// Derive the address of the position owner of a vault.
pub fn derive_investor_fee_position_owner_pda(vault: &Address, program_id: &Address) -> (found: Option<
    (Address, u8),
>)
    ensures
        derived_bytes(found) == program_address(position_owner_seeds(*vault), program_id.bytes@),
{
    let mut seeds: Vec<Vec<u8>> = Vec::new();
    seeds.push(slice_to_vec(VAULT_SEED.as_slice()));
    seeds.push(slice_to_vec(vault.bytes.as_slice()));
    seeds.push(slice_to_vec(INVESTOR_FEE_POS_OWNER_SEED.as_slice()));
    assert(seeds.deep_view() =~~= position_owner_seeds(*vault));
    find_program_address(&seeds, program_id)
}

/// Derive the address of the policy record of a vault.
pub fn derive_policy_pda(vault: &Address, program_id: &Address) -> (found: Option<(Address, u8)>)
    ensures
        derived_bytes(found) == program_address(policy_seeds(*vault), program_id.bytes@),
{
    let mut seeds: Vec<Vec<u8>> = Vec::new();
    seeds.push(slice_to_vec(POLICY_SEED.as_slice()));
    seeds.push(slice_to_vec(vault.bytes.as_slice()));
    assert(seeds.deep_view() =~~= policy_seeds(*vault));
    find_program_address(&seeds, program_id)
}

/// Derive the address of the progress record of a vault.
pub fn derive_progress_pda(vault: &Address, program_id: &Address) -> (found: Option<(Address, u8)>)
    ensures
        derived_bytes(found) == program_address(progress_seeds(*vault), program_id.bytes@),
{
    let mut seeds: Vec<Vec<u8>> = Vec::new();
    seeds.push(slice_to_vec(PROGRESS_SEED.as_slice()));
    seeds.push(slice_to_vec(vault.bytes.as_slice()));
    assert(seeds.deep_view() =~~= progress_seeds(*vault));
    find_program_address(&seeds, program_id)
}

/// Derive the address of the treasury of a vault for a mint.
pub fn derive_treasury_pda(vault: &Address, quote_mint: &Address, program_id: &Address) -> (found:
    Option<(Address, u8)>)
    ensures
        derived_bytes(found) == program_address(
            treasury_seeds(*vault, *quote_mint),
            program_id.bytes@,
        ),
{
    let mut seeds: Vec<Vec<u8>> = Vec::new();
    seeds.push(slice_to_vec(TREASURY_SEED.as_slice()));
    seeds.push(slice_to_vec(vault.bytes.as_slice()));
    seeds.push(slice_to_vec(quote_mint.bytes.as_slice()));
    assert(seeds.deep_view() =~~= treasury_seeds(*vault, *quote_mint));
    find_program_address(&seeds, program_id)
}

/// The seeds with which the position owner of a vault signs: its seeds and
/// its bump seed.
pub fn position_owner_signer_seeds(vault: &Address, bump: &[u8; 1]) -> (seeds: Vec<Vec<u8>>)
    ensures
        seeds.deep_view() == position_owner_seeds(*vault).push(bump@),
{
    let mut seeds: Vec<Vec<u8>> = Vec::new();
    seeds.push(slice_to_vec(VAULT_SEED.as_slice()));
    seeds.push(slice_to_vec(vault.bytes.as_slice()));
    seeds.push(slice_to_vec(INVESTOR_FEE_POS_OWNER_SEED.as_slice()));
    seeds.push(slice_to_vec(bump.as_slice()));
    assert(seeds.deep_view() =~~= position_owner_seeds(*vault).push(bump@));
    seeds
}

} // verus!
