//! Creating the owner's vault record.

use vstd::prelude::*;

use crate::config::Config;
use crate::derivation::spec_derived_address;
use crate::derivation::spec_seed_prefix;
use crate::error::VaultError;
use crate::guard::require_allow_listed;
use crate::guard::require_derived_address;
use crate::guard::require_signer;
use crate::guard::spec_allow_listed;
use crate::ledger::OperationPlan;
use crate::ledger::TransferAsset;
use crate::ledger::TransferAuthority;
use crate::ledger::TransferStep;
use crate::processor::Request;
use crate::state::construct_vault::Vault;

verus! {

/// The derivation nonce of the owner's vault address, where one exists.
pub open spec fn spec_derived_bump(owner: Seq<u8>, program: Seq<u8>) -> u8 {
    match spec_derived_address(spec_seed_prefix(), owner, program) {
        Some(q) => q.1,
        None => 0,
    }
}

/// The first guard failure of Initialize, or `None` when the operation is
/// owed success: the caller must sign, the asset and the fee recipient must
/// be allow-listed, the supplied vault address must be the derived one, and
/// no record may exist there yet.
pub open spec fn spec_initialize_error(cfg: Config, req: Request, vault_exists: bool) -> Option<
    VaultError,
> {
    if !req.caller_is_signer {
        Some(VaultError::MissingSignature)
    } else if !spec_allow_listed(req.token_mint@, cfg.asset_allow@) {
        Some(VaultError::NotAllowListed)
    } else if !spec_allow_listed(req.fee_receiver@, cfg.fee_allow@) {
        Some(VaultError::NotAllowListed)
    } else {
        match spec_derived_address(spec_seed_prefix(), req.caller@, req.program_id@) {
            None => Some(VaultError::AddressMismatch),
            Some(q) => if q.0 != req.vault_address@ {
                Some(VaultError::AddressMismatch)
            } else if vault_exists {
                Some(VaultError::AlreadyInitialized)
            } else {
                None
            },
        }
    }
}

/// The protocol entry fee transfer: a fixed amount of the settlement asset
/// from the caller to the fee recipient.
pub open spec fn spec_entry_fee_step(cfg: Config, req: Request) -> TransferStep {
    TransferStep {
        from: req.caller,
        to: req.fee_receiver,
        amount: cfg.entry_fee,
        asset: TransferAsset::Native,
        authority: TransferAuthority::Caller,
    }
}

/// The deposit transfer: `amount` units of the locked asset from the
/// caller's asset account into the vault's holding account.
pub open spec fn spec_deposit_step(req: Request, amount: u64) -> TransferStep {
    TransferStep {
        from: req.caller_asset_account,
        to: req.vault_holding,
        amount,
        asset: TransferAsset::Locked,
        authority: TransferAuthority::Caller,
    }
}

/// The transfers Initialize performs: the entry fee, then the first deposit
/// if one is made.
pub open spec fn spec_initialize_steps(cfg: Config, req: Request, amount: u64) -> Seq<
    TransferStep,
> {
    if amount > 0 {
        seq![spec_entry_fee_step(cfg, req), spec_deposit_step(req, amount)]
    } else {
        seq![spec_entry_fee_step(cfg, req)]
    }
}

/// The record Initialize creates: locked on the first deposit, or the
/// unlocked zero baseline when nothing is deposited yet.
pub open spec fn spec_initialize_vault(cfg: Config, req: Request, amount: u64, bump: u8) -> Vault {
    if amount > 0 {
        Vault {
            owner: req.caller,
            lock_duration: cfg.lock_duration,
            amount_locked: amount,
            deposit_timestamp: req.now,
            is_locked: true,
            bump,
        }
    } else {
        Vault {
            owner: req.caller,
            lock_duration: 0,
            amount_locked: 0,
            deposit_timestamp: 0,
            is_locked: false,
            bump,
        }
    }
}

/// Initialize is not reentrant: however the request is otherwise formed,
/// once a record exists at the owner's derived address a second Initialize
/// is refused with `AlreadyInitialized` — and, refused, it alters nothing.
pub proof fn lemma_initialize_not_reentrant(cfg: Config, req: Request)
    requires
        req.caller_is_signer,
        spec_allow_listed(req.token_mint@, cfg.asset_allow@),
        spec_allow_listed(req.fee_receiver@, cfg.fee_allow@),
        (spec_derived_address(spec_seed_prefix(), req.caller@, req.program_id@) matches Some(q)
            && q.0 == req.vault_address@),
    ensures
        spec_initialize_error(cfg, req, true) == Some(VaultError::AlreadyInitialized),
{
}

/// Creates the owner's vault record at its derived address, charging the
/// protocol entry fee and locking the first deposit, if any.  Fails with
/// `AlreadyInitialized` when a record already sits at the derived address;
/// a second Initialize against the same owner therefore never alters the
/// existing record.
pub fn initialize(cfg: &Config, req: &Request, vault_exists: bool, amount: u64) -> (r: Result<
    OperationPlan,
    VaultError,
>)
    requires
        cfg.wf(),
        amount > 0 ==> req.now > 0,
    ensures
        (match spec_initialize_error(*cfg, *req, vault_exists) {
            Some(e) => r == Err::<OperationPlan, VaultError>(e),
            None => {
                &&& r matches Ok(p)
                &&& (r matches Ok(p) ==> p.steps@ == spec_initialize_steps(*cfg, *req, amount))
                &&& (r matches Ok(p) ==> p.new_vault == Some(
                    spec_initialize_vault(
                        *cfg,
                        *req,
                        amount,
                        spec_derived_bump(req.caller@, req.program_id@),
                    ),
                ))
            },
        }),
        (r matches Ok(p) ==> (p.new_vault matches Some(v) && v.wf())),
{
    match require_signer(req.caller_is_signer) {
        Ok(()) => (),
        Err(e) => {
            return Err(e);
        },
    }
    match require_allow_listed(&req.token_mint, &cfg.asset_allow) {
        Ok(()) => (),
        Err(e) => {
            return Err(e);
        },
    }
    match require_allow_listed(&req.fee_receiver, &cfg.fee_allow) {
        Ok(()) => (),
        Err(e) => {
            return Err(e);
        },
    }
    let bump = match require_derived_address(&req.caller, &req.program_id, &req.vault_address) {
        Ok(b) => b,
        Err(e) => {
            return Err(e);
        },
    };
    if vault_exists {
        return Err(VaultError::AlreadyInitialized);
    }
    let mut steps: Vec<TransferStep> = Vec::new();
    steps.push(
        TransferStep {
            from: req.caller,
            to: req.fee_receiver,
            amount: cfg.entry_fee,
            asset: TransferAsset::Native,
            authority: TransferAuthority::Caller,
        },
    );
    let new_vault = if amount > 0 {
        steps.push(
            TransferStep {
                from: req.caller_asset_account,
                to: req.vault_holding,
                amount,
                asset: TransferAsset::Locked,
                authority: TransferAuthority::Caller,
            },
        );
        Vault {
            owner: req.caller,
            lock_duration: cfg.lock_duration,
            amount_locked: amount,
            deposit_timestamp: req.now,
            is_locked: true,
            bump,
        }
    } else {
        Vault {
            owner: req.caller,
            lock_duration: 0,
            amount_locked: 0,
            deposit_timestamp: 0,
            is_locked: false,
            bump,
        }
    };
    proof {
        assert(steps@ =~= spec_initialize_steps(*cfg, *req, amount));
    }
    Ok(OperationPlan { steps, new_vault: Some(new_vault) })
}

} // verus!
