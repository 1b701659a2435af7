use vstd::prelude::*;
use anchor_lang::solana_program::pubkey::Pubkey;
use crate::address::Address;

verus! {

/// The address that the host derives from `seeds` and `program_id`, with the
/// bump byte that made it fall off the curve; `None` where no bump does.
pub uninterp spec fn program_address_of(seeds: Seq<Seq<u8>>, program_id: Seq<u8>) -> Option<(Seq<u8>, u8)>;

pub open spec fn seeds_view(seeds: Seq<Vec<u8>>) -> Seq<Seq<u8>> {
    seeds.map_values(|s: Vec<u8>| s@)
}

pub open spec fn derived_view(d: Option<(Address, u8)>) -> Option<(Seq<u8>, u8)> {
    match d {
        Some((a, b)) => Some((a@, b)),
        None => None,
    }
}

/// Relies on `Pubkey::try_find_program_address`: it hashes the seeds, the
/// bump and the program id, and returns the first off-curve address found
/// with the bump counting down from 255, or `None`.
#[verifier::external_body]
fn try_find_program_address(seeds: &Vec<Vec<u8>>, program_id: &Address) -> (r: Option<(Address, u8)>)
    ensures
        derived_view(r) == program_address_of(seeds_view(seeds@), program_id@),
{
    let slices: Vec<&[u8]> = seeds.iter().map(|s| s.as_slice()).collect();
    let id = Pubkey::new_from_array(program_id.bytes);
    Pubkey::try_find_program_address(&slices, &id).map(|(k, bump)| (Address { bytes: k.to_bytes() }, bump))
}

/// Seed of the configuration record: the ASCII text `CONFIG_ACCOUNT`.
pub open spec fn config_seed() -> Seq<u8> {
    seq![67u8, 79, 78, 70, 73, 71, 95, 65, 67, 67, 79, 85, 78, 84]
}

/// Seed of the escrow authority: the ASCII text `token_account_owner_pda`.
pub open spec fn authority_seed() -> Seq<u8> {
    seq![116u8, 111, 107, 101, 110, 95, 97, 99, 99, 111, 117, 110, 116, 95, 111, 119, 110, 101, 114, 95, 112, 100, 97]
}

/// Seed of the vault that holds the tokens on sale: the ASCII text
/// `PROGRAM_TOKEN_ACCOUNT`.
pub open spec fn vault_seed() -> Seq<u8> {
    seq![80u8, 82, 79, 71, 82, 65, 77, 95, 84, 79, 75, 69, 78, 95, 65, 67, 67, 79, 85, 78, 84]
}

pub fn config_seed_bytes() -> (r: Vec<u8>)
    ensures
        r@ == config_seed(),
{
    let r: Vec<u8> = vec![67u8, 79, 78, 70, 73, 71, 95, 65, 67, 67, 79, 85, 78, 84];
    assert(r@ =~= config_seed());
    r
}

pub fn authority_seed_bytes() -> (r: Vec<u8>)
    ensures
        r@ == authority_seed(),
{
    let r: Vec<u8> = vec![116u8, 111, 107, 101, 110, 95, 97, 99, 99, 111, 117, 110, 116, 95, 111, 119, 110, 101, 114, 95, 112, 100, 97];
    assert(r@ =~= authority_seed());
    r
}

pub fn vault_seed_bytes() -> (r: Vec<u8>)
    ensures
        r@ == vault_seed(),
{
    let r: Vec<u8> = vec![80u8, 82, 79, 71, 82, 65, 77, 95, 84, 79, 75, 69, 78, 95, 65, 67, 67, 79, 85, 78, 84];
    assert(r@ =~= vault_seed());
    r
}

/// Derives the address of the given single seed under `program_id`.
pub fn derive_address(seed: Vec<u8>, program_id: &Address) -> (r: Option<(Address, u8)>)
    ensures
        derived_view(r) == program_address_of(seq![seed@], program_id@),
{
    let ghost s = seed@;
    let mut seeds: Vec<Vec<u8>> = Vec::new();
    seeds.push(seed);
    assert(seeds_view(seeds@) =~= seq![s]);
    try_find_program_address(&seeds, program_id)
}

/// The seeds that prove the escrow authority to the transfer program: the
/// authority seed followed by the one-byte bump fixed at creation.
pub fn signer_seeds(bump: u8) -> (r: Vec<Vec<u8>>)
    ensures
        seeds_view(r@) == seq![authority_seed(), seq![bump]],
{
    let mut r: Vec<Vec<u8>> = Vec::new();
    r.push(authority_seed_bytes());
    let b: Vec<u8> = vec![bump];
    assert(b@ =~= seq![bump]);
    r.push(b);
    assert(seeds_view(r@) =~= seq![authority_seed(), seq![bump]]);
    r
}

} // verus!
