//! Returning the full balance of a locked vault.

use vstd::prelude::*;

use crate::derivation::spec_derived_address;
use crate::derivation::spec_seed_prefix;
use crate::error::VaultError;
use crate::guard::require_derived_address;
use crate::ledger::OperationPlan;
use crate::ledger::TransferAsset;
use crate::ledger::TransferAuthority;
use crate::ledger::TransferStep;
use crate::processor::Request;
use crate::state::construct_vault::Vault;

verus! {

/// The first guard failure of Release, or `None` when the operation is owed
/// success: the supplied vault address must be the derived one, the record
/// must exist, and the vault must be locked.
pub open spec fn spec_release_error(req: Request, vault: Option<Vault>) -> Option<VaultError> {
    match spec_derived_address(spec_seed_prefix(), req.caller@, req.program_id@) {
        None => Some(VaultError::AddressMismatch),
        Some(q) => if q.0 != req.vault_address@ {
            Some(VaultError::AddressMismatch)
        } else {
            match vault {
                None => Some(VaultError::VaultNotFound),
                Some(v) => if !v.is_locked {
                    Some(VaultError::NotLocked)
                } else {
                    None
                },
            }
        },
    }
}

/// The release transfer: the entire locked balance moves from the vault's
/// holding account back to the caller's asset account, signed by the
/// vault's own derived authority through the stored nonce — not by the
/// caller.
pub open spec fn spec_release_steps(req: Request, v: Vault) -> Seq<TransferStep> {
    seq![
        TransferStep {
            from: req.vault_holding,
            to: req.caller_asset_account,
            amount: v.amount_locked,
            asset: TransferAsset::Locked,
            authority: TransferAuthority::DerivedVault { bump: v.bump },
        },
    ]
}

/// The record after its balance has been returned: unlocked, zero balance,
/// clocks cleared; owner and nonce persist at the derived address.
pub open spec fn spec_unlocked_vault(v: Vault) -> Vault {
    Vault {
        owner: v.owner,
        lock_duration: 0,
        amount_locked: 0,
        deposit_timestamp: 0,
        is_locked: false,
        bump: v.bump,
    }
}

/// Returns the entire locked balance to the caller and leaves the record
/// unlocked and empty.  Fails with `NotLocked` on a vault that holds
/// nothing.
pub fn release(req: &Request, vault: Option<&Vault>) -> (r: Result<OperationPlan, VaultError>)
    ensures
        (match spec_release_error(
            *req,
            (match vault {
                Some(v) => Some(*v),
                None => None,
            }),
        ) {
            Some(e) => r == Err::<OperationPlan, VaultError>(e),
            None => {
                &&& r matches Ok(p)
                &&& (r matches Ok(p) ==> (vault matches Some(v) && p.steps@ == spec_release_steps(
                    *req,
                    *v,
                )))
                &&& (r matches Ok(p) ==> (vault matches Some(v) && p.new_vault == Some(
                    spec_unlocked_vault(*v),
                )))
            },
        }),
        (r matches Ok(p) ==> (p.new_vault matches Some(v) && v.wf())),
{
    match require_derived_address(&req.caller, &req.program_id, &req.vault_address) {
        Ok(_) => (),
        Err(e) => {
            return Err(e);
        },
    }
    let v = match vault {
        Some(v) => v,
        None => {
            return Err(VaultError::VaultNotFound);
        },
    };
    if !v.is_locked {
        return Err(VaultError::NotLocked);
    }
    let mut steps: Vec<TransferStep> = Vec::new();
    steps.push(
        TransferStep {
            from: req.vault_holding,
            to: req.caller_asset_account,
            amount: v.amount_locked,
            asset: TransferAsset::Locked,
            authority: TransferAuthority::DerivedVault { bump: v.bump },
        },
    );
    let new_vault = Vault {
        owner: v.owner,
        lock_duration: 0,
        amount_locked: 0,
        deposit_timestamp: 0,
        is_locked: false,
        bump: v.bump,
    };
    proof {
        assert(steps@ =~= spec_release_steps(*req, *v));
    }
    Ok(OperationPlan { steps, new_vault: Some(new_vault) })
}

} // verus!
