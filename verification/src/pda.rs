use vstd::prelude::*;

use crate::key::Key;

verus! {

/// What program-derived-address search returns for the given program id and
/// seed slices: the derived 32 address bytes with their bump seed, or
/// nothing when no bump yields a valid derived address. The outcome is a
/// function of the inputs alone.
pub uninterp spec fn pda_of(program_id: Seq<u8>, seeds: Seq<Seq<u8>>) -> Option<(Seq<u8>, u8)>;

/// The address part of a derivation outcome.
pub open spec fn spec_pda_addr(o: Option<(Seq<u8>, u8)>) -> Option<Seq<u8>> {
    match o {
        Some(p) => Some(p.0),
        None => None,
    }
}

/// Relies on solana_program's Pubkey::try_find_program_address: a
/// deterministic derivation (iterated hashing over the seeds, the bump and
/// the program id) that depends on its arguments alone and never panics.
#[verifier::external_body]
pub(crate) fn find_pda(program_id: &Key, seeds: &Vec<Vec<u8>>) -> (r: Option<(Key, u8)>)
    ensures
        (match r {
            Some(p) => Some((p.0@, p.1)),
            None => None,
        }) == pda_of(program_id@, seeds.deep_view()),
{
    let pid = solana_program::pubkey::Pubkey::new_from_array(program_id.bytes);
    let refs: Vec<&[u8]> = seeds.iter().map(|s| s.as_slice()).collect();
    match solana_program::pubkey::Pubkey::try_find_program_address(&refs, &pid) {
        Some((pda, bump)) => Some((Key { bytes: pda.to_bytes() }, bump)),
        None => None,
    }
}

} // verus!
