//! Returning the balance early, against a decaying penalty fee.

use vstd::prelude::*;

use crate::config::Config;
use crate::derivation::spec_derived_address;
use crate::derivation::spec_seed_prefix;
use crate::error::VaultError;
use crate::fees::early_exit_fee;
use crate::fees::lemma_matured_no_fee;
use crate::fees::spec_early_exit_fee;
use crate::fees::spec_fee_fits;
use crate::guard::require_allow_listed;
use crate::guard::require_derived_address;
use crate::guard::require_ledger_owned;
use crate::guard::require_signer;
use crate::guard::spec_allow_listed;
use crate::instruction::release::spec_release_error;
use crate::instruction::release::spec_release_steps;
use crate::instruction::release::spec_unlocked_vault;
use crate::ledger::OperationPlan;
use crate::ledger::TransferAsset;
use crate::ledger::TransferAuthority;
use crate::ledger::TransferStep;
use crate::processor::Request;
use crate::state::construct_vault::Vault;

verus! {

/// The first guard failure of Withdraw, or `None` when the operation is
/// owed success: the caller must sign, the fee recipient must be
/// allow-listed, the supplied vault address must be the derived one, the
/// holding account must be ledger-owned, the record must exist and be
/// locked, and the fee must be representable.
pub open spec fn spec_withdraw_error(cfg: Config, req: Request, vault: Option<Vault>) -> Option<
    VaultError,
> {
    if !req.caller_is_signer {
        Some(VaultError::MissingSignature)
    } else if !spec_allow_listed(req.fee_receiver@, cfg.fee_allow@) {
        Some(VaultError::NotAllowListed)
    } else {
        match spec_derived_address(spec_seed_prefix(), req.caller@, req.program_id@) {
            None => Some(VaultError::AddressMismatch),
            Some(q) => if q.0 != req.vault_address@ {
                Some(VaultError::AddressMismatch)
            } else if req.vault_holding_owner@ != cfg.ledger@ {
                Some(VaultError::InvalidAccountOwnership)
            } else {
                match vault {
                    None => Some(VaultError::VaultNotFound),
                    Some(v) => if !v.is_locked {
                        Some(VaultError::NotLocked)
                    } else if !spec_fee_fits(
                        req.now,
                        v.deposit_timestamp,
                        v.lock_duration,
                        cfg.fee_rate_num,
                        cfg.fee_rate_den,
                        cfg.fee_basis,
                    ) {
                        Some(VaultError::ArithmeticOverflow)
                    } else {
                        None
                    },
                }
            },
        }
    }
}

/// The early-exit fee Withdraw charges, in the native settlement asset.
pub open spec fn spec_withdraw_fee(cfg: Config, req: Request, v: Vault) -> int {
    spec_early_exit_fee(
        req.now,
        v.deposit_timestamp,
        v.lock_duration,
        cfg.fee_rate_num,
        cfg.fee_rate_den,
        cfg.fee_basis,
    )
}

/// The transfers Withdraw performs: the fee (if any is owed) from the
/// caller to the fee recipient in the settlement asset, then exactly the
/// release transfer — early withdrawal always returns the full locked
/// balance, net of the side-channel fee already paid.
pub open spec fn spec_withdraw_steps(cfg: Config, req: Request, v: Vault) -> Seq<TransferStep> {
    let fee = spec_withdraw_fee(cfg, req, v);
    if fee > 0 {
        seq![
            TransferStep {
                from: req.caller,
                to: req.fee_receiver,
                amount: fee as u64,
                asset: TransferAsset::Native,
                authority: TransferAuthority::Caller,
            },
        ] + spec_release_steps(req, v)
    } else {
        spec_release_steps(req, v)
    }
}

/// Returns the full locked balance to the caller before maturity, charging
/// the decaying early-exit fee, and leaves the record unlocked and empty —
/// the same end state as Release.
pub fn withdraw(cfg: &Config, req: &Request, vault: Option<&Vault>) -> (r: Result<
    OperationPlan,
    VaultError,
>)
    requires
        cfg.wf(),
        (vault matches Some(v) ==> v.deposit_timestamp <= req.now),
    ensures
        (match spec_withdraw_error(
            *cfg,
            *req,
            (match vault {
                Some(v) => Some(*v),
                None => None,
            }),
        ) {
            Some(e) => r == Err::<OperationPlan, VaultError>(e),
            None => {
                &&& r matches Ok(p)
                &&& (r matches Ok(p) ==> (vault matches Some(v) && p.steps@ == spec_withdraw_steps(
                    *cfg,
                    *req,
                    *v,
                )))
                &&& (r matches Ok(p) ==> (vault matches Some(v) && p.new_vault == Some(
                    spec_unlocked_vault(*v),
                )))
            },
        }),
        (r matches Ok(p) ==> (p.new_vault matches Some(v) && v.wf())),
{
    match require_signer(req.caller_is_signer) {
        Ok(()) => (),
        Err(e) => {
            return Err(e);
        },
    }
    match require_allow_listed(&req.fee_receiver, &cfg.fee_allow) {
        Ok(()) => (),
        Err(e) => {
            return Err(e);
        },
    }
    match require_derived_address(&req.caller, &req.program_id, &req.vault_address) {
        Ok(_) => (),
        Err(e) => {
            return Err(e);
        },
    }
    match require_ledger_owned(&req.vault_holding_owner, &cfg.ledger) {
        Ok(()) => (),
        Err(e) => {
            return Err(e);
        },
    }
    let v = match vault {
        Some(v) => v,
        None => {
            return Err(VaultError::VaultNotFound);
        },
    };
    if !v.is_locked {
        return Err(VaultError::NotLocked);
    }
    let fee = match early_exit_fee(
        req.now,
        v.deposit_timestamp,
        v.lock_duration,
        cfg.fee_rate_num,
        cfg.fee_rate_den,
        cfg.fee_basis,
    ) {
        Ok(f) => f,
        Err(e) => {
            return Err(e);
        },
    };
    let mut steps: Vec<TransferStep> = Vec::new();
    if fee > 0 {
        steps.push(
            TransferStep {
                from: req.caller,
                to: req.fee_receiver,
                amount: fee,
                asset: TransferAsset::Native,
                authority: TransferAuthority::Caller,
            },
        );
    }
    steps.push(
        TransferStep {
            from: req.vault_holding,
            to: req.caller_asset_account,
            amount: v.amount_locked,
            asset: TransferAsset::Locked,
            authority: TransferAuthority::DerivedVault { bump: v.bump },
        },
    );
    let new_vault = Vault {
        owner: v.owner,
        lock_duration: 0,
        amount_locked: 0,
        deposit_timestamp: 0,
        is_locked: false,
        bump: v.bump,
    };
    proof {
        assert(steps@ =~= spec_withdraw_steps(*cfg, *req, *v));
    }
    Ok(OperationPlan { steps, new_vault: Some(new_vault) })
}

/// A matured withdrawal is a release: once at least the lock duration has
/// elapsed since the deposit, the fee is zero, the transfers are exactly
/// the release transfers, and a withdrawal that is owed success implies a
/// release would be too.
pub proof fn lemma_matured_withdraw_matches_release(cfg: Config, req: Request, v: Vault)
    requires
        cfg.wf(),
        v.deposit_timestamp <= req.now,
        req.now - v.deposit_timestamp >= v.lock_duration,
    ensures
        spec_withdraw_fee(cfg, req, v) == 0,
        spec_withdraw_steps(cfg, req, v) == spec_release_steps(req, v),
        spec_withdraw_error(cfg, req, Some(v)) is None ==> spec_release_error(req, Some(v)) is None,
{
    lemma_matured_no_fee(
        req.now,
        v.deposit_timestamp,
        v.lock_duration,
        cfg.fee_rate_num,
        cfg.fee_rate_den,
        cfg.fee_basis,
    );
}

/// An already-unlocked vault rejects both Withdraw and Release with
/// `NotLocked` — in particular, either operation performed right after the
/// other finds the record unlocked and fails.
pub proof fn lemma_unlocked_rejected(cfg: Config, req: Request, v: Vault)
    requires
        !v.is_locked,
        req.caller_is_signer,
        spec_allow_listed(req.fee_receiver@, cfg.fee_allow@),
        (spec_derived_address(spec_seed_prefix(), req.caller@, req.program_id@) matches Some(q)
            && q.0 == req.vault_address@),
        req.vault_holding_owner@ == cfg.ledger@,
    ensures
        spec_withdraw_error(cfg, req, Some(v)) == Some(VaultError::NotLocked),
        spec_release_error(req, Some(v)) == Some(VaultError::NotLocked),
{
}

/// Withdraw and Release leave the vault unlocked: the record they persist
/// is itself rejected by the next Withdraw or Release.
pub proof fn lemma_released_vault_is_unlocked(v: Vault)
    ensures
        !spec_unlocked_vault(v).is_locked,
        spec_unlocked_vault(v).amount_locked == 0,
{
}

} // verus!
