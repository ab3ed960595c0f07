//! Locking further funds into an existing vault.

use vstd::prelude::*;

use crate::config::Config;
use crate::derivation::spec_derived_address;
use crate::derivation::spec_seed_prefix;
use crate::error::VaultError;
use crate::guard::require_derived_address;
use crate::guard::require_ledger_owned;
use crate::guard::require_signer;
use crate::instruction::initialize::spec_deposit_step;
use crate::ledger::OperationPlan;
use crate::ledger::TransferStep;
use crate::processor::Request;
use crate::state::construct_vault::Vault;

verus! {

/// The first guard failure of Deposit, or `None` when the operation is owed
/// success: the caller must sign a positive amount, the supplied vault
/// address must be the derived one, the vault's holding account must be
/// ledger-owned, the record must exist, and the new balance must be
/// representable.
pub open spec fn spec_deposit_error(
    cfg: Config,
    req: Request,
    vault: Option<Vault>,
    amount: u64,
) -> Option<VaultError> {
    if !req.caller_is_signer {
        Some(VaultError::MissingSignature)
    } else if amount == 0 {
        Some(VaultError::MalformedRequest)
    } else {
        match spec_derived_address(spec_seed_prefix(), req.caller@, req.program_id@) {
            None => Some(VaultError::AddressMismatch),
            Some(q) => if q.0 != req.vault_address@ {
                Some(VaultError::AddressMismatch)
            } else if req.vault_holding_owner@ != cfg.ledger@ {
                Some(VaultError::InvalidAccountOwnership)
            } else {
                match vault {
                    None => Some(VaultError::VaultNotFound),
                    Some(v) => if v.amount_locked + amount > u64::MAX {
                        Some(VaultError::ArithmeticOverflow)
                    } else {
                        None
                    },
                }
            },
        }
    }
}

/// The record after a deposit: the amount is added to the balance already
/// held, the deposit time is reset to `now` (restarting the maturity clock
/// for the combined balance), and the fixed lock duration applies again.
pub open spec fn spec_deposit_vault(cfg: Config, req: Request, v: Vault, amount: u64) -> Vault {
    Vault {
        owner: v.owner,
        lock_duration: cfg.lock_duration,
        amount_locked: (v.amount_locked + amount) as u64,
        deposit_timestamp: req.now,
        is_locked: true,
        bump: v.bump,
    }
}

/// Locks `amount` further units into the caller's vault: the amount is
/// transferred into the vault's holding account, added to the locked
/// balance, and the maturity clock restarts at `now`.
pub fn deposit(cfg: &Config, req: &Request, vault: Option<&Vault>, amount: u64) -> (r: Result<
    OperationPlan,
    VaultError,
>)
    requires
        cfg.wf(),
        req.now > 0,
    ensures
        (match spec_deposit_error(
            *cfg,
            *req,
            (match vault {
                Some(v) => Some(*v),
                None => None,
            }),
            amount,
        ) {
            Some(e) => r == Err::<OperationPlan, VaultError>(e),
            None => {
                &&& r matches Ok(p)
                &&& (r matches Ok(p) ==> p.steps@ == seq![spec_deposit_step(*req, amount)])
                &&& (r matches Ok(p) ==> (vault matches Some(v) && p.new_vault == Some(
                    spec_deposit_vault(*cfg, *req, *v, amount),
                )))
            },
        }),
        (r matches Ok(p) ==> (p.new_vault matches Some(v) && v.wf())),
{
    match require_signer(req.caller_is_signer) {
        Ok(()) => (),
        Err(e) => {
            return Err(e);
        },
    }
    if amount == 0 {
        return Err(VaultError::MalformedRequest);
    }
    match require_derived_address(&req.caller, &req.program_id, &req.vault_address) {
        Ok(_) => (),
        Err(e) => {
            return Err(e);
        },
    }
    match require_ledger_owned(&req.vault_holding_owner, &cfg.ledger) {
        Ok(()) => (),
        Err(e) => {
            return Err(e);
        },
    }
    let v = match vault {
        Some(v) => v,
        None => {
            return Err(VaultError::VaultNotFound);
        },
    };
    let new_amount = match v.amount_locked.checked_add(amount) {
        Some(a) => a,
        None => {
            return Err(VaultError::ArithmeticOverflow);
        },
    };
    let mut steps: Vec<TransferStep> = Vec::new();
    steps.push(
        TransferStep {
            from: req.caller_asset_account,
            to: req.vault_holding,
            amount,
            asset: crate::ledger::TransferAsset::Locked,
            authority: crate::ledger::TransferAuthority::Caller,
        },
    );
    let new_vault = Vault {
        owner: v.owner,
        lock_duration: cfg.lock_duration,
        amount_locked: new_amount,
        deposit_timestamp: req.now,
        is_locked: true,
        bump: v.bump,
    };
    proof {
        assert(steps@ =~= seq![spec_deposit_step(*req, amount)]);
    }
    Ok(OperationPlan { steps, new_vault: Some(new_vault) })
}

} // verus!
