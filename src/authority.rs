use vstd::prelude::*;

use crate::key::Key;

verus! {

/// What `Pubkey::try_find_program_address` returns for the given seeds and
/// program id: the derived address with its bump seed, or `None` where no
/// bump seed gives an address off the curve.
pub uninterp spec fn program_address(seeds: Seq<Seq<u8>>, program_id: Seq<u8>) -> Option<(Seq<u8>, u8)>;

/// The view of a derived signer: its address bytes and its nonce.
pub open spec fn signer_view(r: Option<(Key, u8)>) -> Option<(Seq<u8>, u8)> {
    match r {
        Some((k, n)) => Some((k@, n)),
        None => None,
    }
}

/// The program signer of a pool: derived from the seeds `[mint, pool]`
/// under the program's id.
pub open spec fn derived_signer(mint: Seq<u8>, pool: Seq<u8>, program_id: Seq<u8>) -> Option<(Seq<u8>, u8)> {
    program_address(seq![mint, pool], program_id)
}

/// Whether a claimed signer and nonce are exactly the derived pair.
pub open spec fn signer_matches(derived: Option<(Seq<u8>, u8)>, claimed: Seq<u8>, nonce: u8) -> bool {
    match derived {
        Some((k, n)) => k == claimed && n == nonce,
        None => false,
    }
}

/// Relies on `Pubkey::try_find_program_address` (solana-address): the
/// address and bump seed it finds depend on the seeds and program id alone.
#[verifier::external_body]
pub(crate) fn find_program_address(seed_a: &Key, seed_b: &Key, program_id: &Key) -> (r: Option<(Key, u8)>)
    ensures
        signer_view(r) == program_address(seq![seed_a@, seed_b@], program_id@),
{
    let seeds: [&[u8]; 2] = [&seed_a.bytes, &seed_b.bytes];
    let program = anchor_lang::prelude::Pubkey::new_from_array(program_id.bytes);
    match anchor_lang::prelude::Pubkey::try_find_program_address(&seeds, &program) {
        Some((address, bump)) => Some((Key { bytes: address.to_bytes() }, bump)),
        None => None,
    }
}

/// Derives the program signer of the pool `pool` that custodies `mint`.
pub fn derive_program_signer(mint: &Key, pool: &Key, program_id: &Key) -> (r: Option<(Key, u8)>)
    ensures
        signer_view(r) == derived_signer(mint@, pool@, program_id@),
{
    find_program_address(mint, pool, program_id)
}

/// Checks a claimed signer and nonce against a derived pair.
pub fn verify_derived_signer(derived: &Option<(Key, u8)>, claimed: &Key, nonce: u8) -> (r: bool)
    ensures
        r == signer_matches(signer_view(*derived), claimed@, nonce),
{
    match derived {
        Some((k, n)) => k.same(claimed) && *n == nonce,
        None => false,
    }
}

/// Re-derives the program signer of `(mint, pool)` and checks that the
/// claimed signer and nonce are exactly what the derivation gives.
pub fn verify_program_signer(mint: &Key, pool: &Key, program_id: &Key, claimed: &Key, nonce: u8) -> (r: bool)
    ensures
        r == signer_matches(derived_signer(mint@, pool@, program_id@), claimed@, nonce),
{
    let derived = derive_program_signer(mint, pool, program_id);
    verify_derived_signer(&derived, claimed, nonce)
}

/// Derivation is a function of its inputs: two derivations from the same
/// mint, pool and program id give the same signer and nonce.
pub proof fn derivation_is_deterministic(
    mint: Seq<u8>,
    pool: Seq<u8>,
    program_id: Seq<u8>,
    first: Option<(Key, u8)>,
    second: Option<(Key, u8)>,
)
    requires
        signer_view(first) == derived_signer(mint, pool, program_id),
        signer_view(second) == derived_signer(mint, pool, program_id),
    ensures
        signer_view(first) == signer_view(second),
        first matches Some(f) ==> second matches Some(s) && f.0@ == s.0@ && f.1 == s.1,
{
}

} // verus!
