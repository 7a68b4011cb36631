//! Derivation of a pool's account address from its seeds.
use crate::pool::{keys_equal, lemma_key_view_injective, PlpError, Pubkey};
use anchor_lang::solana_program::pubkey::Pubkey as LedgerAddress;
use vstd::prelude::*;

verus! {

/// The address that `create_program_address` derives from `seeds` under the
/// program `program_id`, or `None` where it rejects them.
pub uninterp spec fn program_address(seeds: Seq<Seq<u8>>, program_id: Seq<u8>) -> Option<Seq<u8>>;

/// The address and bump byte that `try_find_program_address` finds for
/// `seeds` under the program `program_id`, or `None` where it finds none.
pub uninterp spec fn found_program_address(seeds: Seq<Seq<u8>>, program_id: Seq<u8>) -> Option<(Seq<u8>, u8)>;

/// The namespace tag that opens every pool's seeds: the ASCII bytes of "pool".
pub open spec fn pool_tag() -> Seq<u8> {
    seq![112u8, 111u8, 111u8, 108u8]
}

/// The seeds of the pool of asset `mint`, without the bump byte.
pub open spec fn pool_seeds(mint: Pubkey) -> Seq<Seq<u8>> {
    seq![pool_tag(), mint.bytes@]
}

/// The seeds of the pool of asset `mint`, closed by the bump byte `bump`.
pub open spec fn pool_seeds_with_bump(mint: Pubkey, bump: u8) -> Seq<Seq<u8>> {
    pool_seeds(mint).push(seq![bump])
}

/// The view of a list of seeds.
pub open spec fn seeds_view(seeds: Seq<Vec<u8>>) -> Seq<Seq<u8>> {
    seeds.map_values(|s: Vec<u8>| s@)
}

/// The view of a found address and bump.
pub open spec fn found_view(found: Option<(Pubkey, u8)>) -> Option<(Seq<u8>, u8)> {
    match found {
        Some((k, b)) => Some((k.bytes@, b)),
        None => None,
    }
}

/// Whether `presented` is the address that derivation gave.
pub open spec fn address_matches(derived: Option<Seq<u8>>, presented: Pubkey) -> bool {
    derived == Some(presented.bytes@)
}

/// Relies on `Pubkey::create_program_address`, which anchor_lang re-exports
/// from solana-address: it hashes the seeds and the program id, and fails
/// where the seeds are too many or too long or the hash lies on the curve; the
/// outcome depends on its arguments alone.
#[verifier::external_body]
fn create_program_address(seeds: &Vec<Vec<u8>>, program_id: &Pubkey) -> (r: Option<Pubkey>)
    ensures
        r matches Some(k) ==> program_address(seeds_view(seeds@), program_id.bytes@) == Some(k.bytes@),
        r is None ==> program_address(seeds_view(seeds@), program_id.bytes@) is None,
{
    let parts: Vec<&[u8]> = seeds.iter().map(|s| s.as_slice()).collect();
    LedgerAddress::create_program_address(&parts, &LedgerAddress::new_from_array(program_id.bytes))
        .ok()
        .map(|a| Pubkey { bytes: a.to_bytes() })
}

/// Relies on `Pubkey::try_find_program_address`, which anchor_lang re-exports
/// from solana-address: it tries the bump bytes from 255 down and returns an
/// address only where `create_program_address` gave it for the seeds closed by
/// that bump; the outcome depends on its arguments alone.
#[verifier::external_body]
fn try_find_program_address(seeds: &Vec<Vec<u8>>, program_id: &Pubkey) -> (r: Option<(Pubkey, u8)>)
    ensures
        found_view(r) == found_program_address(seeds_view(seeds@), program_id.bytes@),
        r matches Some((k, b)) ==> program_address(
            seeds_view(seeds@).push(seq![b]),
            program_id.bytes@,
        ) == Some(k.bytes@),
{
    let parts: Vec<&[u8]> = seeds.iter().map(|s| s.as_slice()).collect();
    LedgerAddress::try_find_program_address(&parts, &LedgerAddress::new_from_array(program_id.bytes))
        .map(|(a, b)| (Pubkey { bytes: a.to_bytes() }, b))
}

/// Builds the seeds of the pool of asset `mint`.
pub fn make_pool_seeds(mint: &Pubkey) -> (r: Vec<Vec<u8>>)
    ensures
        seeds_view(r@) == pool_seeds(*mint),
{
    let tag: Vec<u8> = vec![112u8, 111u8, 111u8, 108u8];
    let mut key: Vec<u8> = Vec::new();
    let mut i: usize = 0;
    while i < 32
        invariant
            0 <= i <= 32,
            key@ == mint.bytes@.subrange(0, i as int),
        decreases 32 - i,
    {
        key.push(mint.bytes[i]);
        i = i + 1;
    }
    assert(key@ =~= mint.bytes@);
    let r: Vec<Vec<u8>> = vec![tag, key];
    assert(seeds_view(r@) =~= pool_seeds(*mint));
    r
}

/// Builds the seeds of the pool of asset `mint`, closed by `bump`.
pub fn make_pool_seeds_with_bump(mint: &Pubkey, bump: u8) -> (r: Vec<Vec<u8>>)
    ensures
        seeds_view(r@) == pool_seeds_with_bump(*mint, bump),
{
    let mut r = make_pool_seeds(mint);
    let last: Vec<u8> = vec![bump];
    assert(last@ =~= seq![bump]);
    r.push(last);
    assert(seeds_view(r@) =~= pool_seeds_with_bump(*mint, bump));
    r
}

/// Finds the canonical address and bump byte of the pool of asset `mint`.
pub fn derive_pool_address(mint: &Pubkey, program_id: &Pubkey) -> (r: Option<(Pubkey, u8)>)
    ensures
        found_view(r) == found_program_address(pool_seeds(*mint), program_id.bytes@),
        r matches Some((k, b)) ==> program_address(pool_seeds_with_bump(*mint, b), program_id.bytes@)
            == Some(k.bytes@),
{
    let seeds = make_pool_seeds(mint);
    try_find_program_address(&seeds, program_id)
}

/// Re-derives the address of the pool of asset `mint` from its stored bump.
pub fn pool_address_with_bump(mint: &Pubkey, bump: u8, program_id: &Pubkey) -> (r: Option<Pubkey>)
    ensures
        r matches Some(k) ==> program_address(pool_seeds_with_bump(*mint, bump), program_id.bytes@)
            == Some(k.bytes@),
        r is None ==> program_address(pool_seeds_with_bump(*mint, bump), program_id.bytes@) is None,
{
    let seeds = make_pool_seeds_with_bump(mint, bump);
    create_program_address(&seeds, program_id)
}

/// Accepts `presented` only where it is the address that derivation gave.
pub fn check_address(derived: &Option<Pubkey>, presented: &Pubkey) -> (r: Result<(), PlpError>)
    ensures
        r is Ok <==> address_matches(
            match *derived {
                Some(k) => Some(k.bytes@),
                None => None,
            },
            *presented,
        ),
        r is Err ==> r == Err::<(), PlpError>(PlpError::AddressMismatch),
{
    match derived {
        Some(k) => {
            proof {
                if k.bytes@ == presented.bytes@ {
                    lemma_key_view_injective(*k, *presented);
                }
            }
            if keys_equal(k, presented) {
                Ok(())
            } else {
                Err(PlpError::AddressMismatch)
            }
        },
        None => Err(PlpError::AddressMismatch),
    }
}

} // verus!
