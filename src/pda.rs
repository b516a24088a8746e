use vstd::prelude::*;
use anchor_lang::prelude::Pubkey;
use crate::key::Key;

verus! {

/// Seed of the address that holds every task's escrowed funds.
pub const POOL_AUTHORITY_SEED: &'static str = "pool_authority";

/// The program-derived address and bump seed that the host derives from one
/// seed and a program id, if any bump seed yields one.
pub uninterp spec fn program_address_of(seed: Seq<char>, program_id: Seq<u8>) -> Option<(Seq<u8>, u8)>;

/// Relies on solana-program's `Pubkey::try_find_program_address` (re-exported
/// by anchor-lang) with the single seed `seed`: the derived address and its
/// bump seed, or `None` when no bump seed yields an address off the curve.
/// The result depends on the seed and the program id alone.
#[verifier::external_body]
fn try_find_program_address(seed: &str, program_id: &Key) -> (r: Option<(Key, u8)>)
    ensures
        match r {
            Some((k, bump)) => program_address_of(seed@, program_id@) == Some((k@, bump)),
            None => program_address_of(seed@, program_id@) is None,
        },
{
    let id = Pubkey::new_from_array(program_id.bytes);
    match Pubkey::try_find_program_address(&[seed.as_bytes()], &id) {
        Some((k, bump)) => Some((Key { bytes: k.to_bytes() }, bump)),
        None => None,
    }
}

/// The pool authority of a program: the address with no private key that
/// holds the escrowed funds, and the bump seed it signs with.
pub open spec fn pool_authority_of(program_id: Key) -> Option<(Seq<u8>, u8)> {
    program_address_of(POOL_AUTHORITY_SEED@, program_id@)
}

/// Derives the pool authority of the program `program_id`.
pub fn pool_authority(program_id: &Key) -> (r: Option<(Key, u8)>)
    ensures
        match r {
            Some((k, bump)) => pool_authority_of(*program_id) == Some((k@, bump)),
            None => pool_authority_of(*program_id) is None,
        },
{
    try_find_program_address(POOL_AUTHORITY_SEED, program_id)
}

} // verus!
