//! Authorization guards, run before any state mutation.
//!
//! Each guard either passes or names the exact failure; a failing guard
//! aborts the whole operation with no partial state change.

use vstd::prelude::*;

use crate::account_id::AccountId;
use crate::derivation::derive_vault_address;
use crate::derivation::spec_derived_address;
use crate::derivation::spec_seed_prefix;
use crate::error::VaultError;

verus! {

/// Whether `candidate` is one of the allow-listed identifiers.
pub open spec fn spec_allow_listed(candidate: Seq<u8>, allow: Seq<AccountId>) -> bool {
    exists|i: int| 0 <= i < allow.len() && allow[i]@ == candidate
}

/// Fails with `MissingSignature` unless the caller cryptographically
/// authorized the request.
pub fn require_signer(is_signer: bool) -> (r: Result<(), VaultError>)
    ensures
        r is Ok <==> is_signer,
        r matches Err(e) ==> e == VaultError::MissingSignature,
{
    if is_signer {
        Ok(())
    } else {
        Err(VaultError::MissingSignature)
    }
}

/// Recomputes the owner's derived vault address and fails with
/// `AddressMismatch` unless the supplied address is exactly the derived one
/// (or no address can be derived at all).  On success, returns the
/// derivation nonce.
pub fn require_derived_address(
    owner: &AccountId,
    program_id: &AccountId,
    supplied: &AccountId,
) -> (r: Result<u8, VaultError>)
    ensures
        (match spec_derived_address(spec_seed_prefix(), owner@, program_id@) {
            Some(q) => {
                &&& (r is Ok <==> q.0 == supplied@)
                &&& (r matches Ok(b) ==> b == q.1)
            },
            None => r is Err,
        }),
        r matches Err(e) ==> e == VaultError::AddressMismatch,
{
    match derive_vault_address(owner, program_id) {
        Some((derived, bump)) => {
            if derived == *supplied {
                Ok(bump)
            } else {
                Err(VaultError::AddressMismatch)
            }
        },
        None => Err(VaultError::AddressMismatch),
    }
}

/// Fails with `NotAllowListed` unless `candidate` is exactly one of the
/// fixed entries of `allow`.
pub fn require_allow_listed(candidate: &AccountId, allow: &Vec<AccountId>) -> (r: Result<
    (),
    VaultError,
>)
    ensures
        r is Ok <==> spec_allow_listed(candidate@, allow@),
        r matches Err(e) ==> e == VaultError::NotAllowListed,
{
    let mut i: usize = 0;
    while i < allow.len()
        invariant
            0 <= i <= allow@.len(),
            forall|j: int| 0 <= j < i ==> allow@[j]@ != candidate@,
        decreases allow@.len() - i,
    {
        if allow[i] == *candidate {
            return Ok(());
        }
        i += 1;
    }
    Err(VaultError::NotAllowListed)
}

/// Fails with `InvalidAccountOwnership` unless the token-holding account is
/// administered by the expected ledger program.
pub fn require_ledger_owned(account_owner: &AccountId, expected_ledger: &AccountId) -> (r: Result<
    (),
    VaultError,
>)
    ensures
        r is Ok <==> account_owner@ == expected_ledger@,
        r matches Err(e) ==> e == VaultError::InvalidAccountOwnership,
{
    if *account_owner == *expected_ledger {
        Ok(())
    } else {
        Err(VaultError::InvalidAccountOwnership)
    }
}

} // verus!
