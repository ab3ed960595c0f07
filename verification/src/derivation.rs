//! Deterministic vault-address derivation.
//!
//! Each owner's vault record lives at an address computed deterministically
//! from a fixed seed label and the owner's identity, together with a nonce
//! ("bump") that made the derivation succeed.  The derived address is both
//! the record's storage key and its authorization anchor: every operation
//! recomputes it and compares, rather than trusting a caller-supplied
//! address.

use vstd::prelude::*;

use crate::account_id::AccountId;

verus! {

/// The fixed seed label under which each owner's vault address is derived:
/// the bytes of `kuza_vault`.
pub open spec fn spec_seed_prefix() -> Seq<u8> {
    seq![107u8, 117u8, 122u8, 97u8, 95u8, 118u8, 97u8, 117u8, 108u8, 116u8]
}

/// The fixed seed label, as plain bytes.
pub fn seed_prefix() -> (r: Vec<u8>)
    ensures
        r@ == spec_seed_prefix(),
{
    let mut r: Vec<u8> = Vec::new();
    r.push(107);
    r.push(117);
    r.push(122);
    r.push(97);
    r.push(95);
    r.push(118);
    r.push(97);
    r.push(117);
    r.push(108);
    r.push(116);
    proof {
        assert(r@ =~= spec_seed_prefix());
    }
    r
}

/// What address derivation returns for given seed bytes, owner and program
/// id: a function of those arguments alone, `None` only in the
/// statistically improbable case that no nonce yields a valid address.
pub uninterp spec fn spec_derived_address(seed: Seq<u8>, owner: Seq<u8>, program: Seq<u8>) -> Option<
    (Seq<u8>, u8),
>;

/// Relies on `solana_program::pubkey::Pubkey::try_find_program_address`,
/// called with the two seeds `[seed, owner]`: the result depends on the
/// seed bytes, the owner and the program id alone.
#[verifier::external_body]
fn try_derive(seed: &Vec<u8>, owner: &AccountId, program: &AccountId) -> (r: Option<
    (AccountId, u8),
>)
    ensures
        (match (r, spec_derived_address(seed@, owner@, program@)) {
            (Some(p), Some(q)) => p.0@ == q.0 && p.1 == q.1,
            (None, None) => true,
            _ => false,
        }),
{
    let owner_key = solana_program::pubkey::Pubkey::new_from_array(owner.bytes);
    let program_key = solana_program::pubkey::Pubkey::new_from_array(program.bytes);
    match solana_program::pubkey::Pubkey::try_find_program_address(
        &[seed.as_slice(), owner_key.as_ref()],
        &program_key,
    ) {
        Some((address, bump)) => Some((AccountId { bytes: address.to_bytes() }, bump)),
        None => None,
    }
}

/// Derives the owner's vault address under the fixed seed label, with the
/// nonce that made the derivation succeed.
pub fn derive_vault_address(owner: &AccountId, program_id: &AccountId) -> (r: Option<
    (AccountId, u8),
>)
    ensures
        (match (r, spec_derived_address(spec_seed_prefix(), owner@, program_id@)) {
            (Some(p), Some(q)) => p.0@ == q.0 && p.1 == q.1,
            (None, None) => true,
            _ => false,
        }),
{
    let seed = seed_prefix();
    try_derive(&seed, owner, program_id)
}

/// Derivation is a pure function: the same seed, owner and program always
/// stand for the identical address and nonce.
pub proof fn lemma_derivation_deterministic(
    seed: Seq<u8>,
    owner: Seq<u8>,
    program: Seq<u8>,
    r1: Option<(Seq<u8>, u8)>,
    r2: Option<(Seq<u8>, u8)>,
)
    requires
        r1 == spec_derived_address(seed, owner, program),
        r2 == spec_derived_address(seed, owner, program),
    ensures
        r1 == r2,
{
}

} // verus!
