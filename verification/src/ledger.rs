//! What a validated operation asks of the external ledger.
//!
//! The core never moves balances itself: a successful operation returns a
//! plan of transfers for the hosting runtime to perform, together with the
//! record to persist once every transfer has succeeded.  A failure during
//! the transfers must leave the record untouched; the commit decision is
//! [`finalize_after_transfers`].

use vstd::prelude::*;

use crate::account_id::AccountId;
use crate::error::VaultError;
use crate::state::construct_vault::Vault;

verus! {

/// Who signs a planned transfer.
#[derive(Clone, Copy, Debug, PartialEq, Eq, Structural)]
pub enum TransferAuthority {
    /// The caller signs the transfer.
    Caller,
    /// The vault's own derived address signs, reproduced from the stored
    /// derivation nonce.
    DerivedVault { bump: u8 },
}

/// Which asset a planned transfer moves.
#[derive(Clone, Copy, Debug, PartialEq, Eq, Structural)]
pub enum TransferAsset {
    /// The locked fungible asset.
    Locked,
    /// The native settlement asset, in which fees are denominated.
    Native,
}

/// One `transfer(from, to, amount)` the runtime must issue to the ledger.
#[derive(Clone, Copy, Debug, PartialEq)]
pub struct TransferStep {
    /// The account debited.
    pub from: AccountId,
    /// The account credited.
    pub to: AccountId,
    /// The amount moved, in the asset's smallest unit.
    pub amount: u64,
    /// Which asset moves.
    pub asset: TransferAsset,
    /// Who signs.
    pub authority: TransferAuthority,
}

/// The effect of a validated operation: the transfers to perform, in order,
/// and the record to persist at the vault address once all of them have
/// succeeded.
#[derive(Debug, PartialEq)]
pub struct OperationPlan {
    /// The ledger transfers, to be performed in order.
    pub steps: Vec<TransferStep>,
    /// The record to persist after every step succeeded; `None` when the
    /// operation writes nothing.
    pub new_vault: Option<Vault>,
}

/// The commit decision: the vault record of a plan is written only after
/// every transfer of the plan has succeeded; a failed transfer fails the
/// whole operation instead, leaving the record untouched.
pub fn finalize_after_transfers(plan_vault: &Vault, transfers_succeeded: bool) -> (r: Result<
    Vault,
    VaultError,
>)
    ensures
        transfers_succeeded ==> r == Ok::<Vault, VaultError>(*plan_vault),
        !transfers_succeeded ==> r == Err::<Vault, VaultError>(VaultError::TransferFailure),
{
    if transfers_succeeded {
        Ok(*plan_vault)
    } else {
        Err(VaultError::TransferFailure)
    }
}

} // verus!
