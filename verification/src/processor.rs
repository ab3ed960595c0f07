//! The inbound operation requests and their dispatch.

use vstd::prelude::*;

use crate::account_id::AccountId;
use crate::codec::parse_instruction;
use crate::codec::spec_parse_instruction;
use crate::config::Config;
use crate::error::VaultError;
use crate::instruction::deposit::deposit;
use crate::instruction::deposit::spec_deposit_error;
use crate::instruction::deposit::spec_deposit_vault;
use crate::instruction::extend::extend;
use crate::instruction::initialize::initialize;
use crate::instruction::initialize::spec_deposit_step;
use crate::instruction::initialize::spec_derived_bump;
use crate::instruction::initialize::spec_initialize_error;
use crate::instruction::initialize::spec_initialize_steps;
use crate::instruction::initialize::spec_initialize_vault;
use crate::instruction::release::release;
use crate::instruction::release::spec_release_error;
use crate::instruction::release::spec_release_steps;
use crate::instruction::release::spec_unlocked_vault;
use crate::instruction::withdraw::spec_withdraw_error;
use crate::instruction::withdraw::spec_withdraw_steps;
use crate::instruction::withdraw::withdraw;
use crate::ledger::OperationPlan;
use crate::state::construct_vault::Vault;

verus! {

/// The plain values of one inbound request: the caller, the named accounts
/// the runtime handed in, and the current wall-clock time.  The core
/// validates these; it never trusts them.
pub struct Request {
    /// The escrow program's own identifier, under which vault addresses are
    /// derived.
    pub program_id: AccountId,
    /// The caller's identity (the vault owner for every operation here).
    pub caller: AccountId,
    /// Whether the caller cryptographically authorized the request.
    pub caller_is_signer: bool,
    /// The caller-supplied address of the vault record; verified against
    /// the derived address before anything else trusts it.
    pub vault_address: AccountId,
    /// The vault's asset-holding account.
    pub vault_holding: AccountId,
    /// The program administering the vault's asset-holding account.
    pub vault_holding_owner: AccountId,
    /// The caller's own asset account, the other end of deposits and
    /// releases.
    pub caller_asset_account: AccountId,
    /// The fee recipient named by the request.
    pub fee_receiver: AccountId,
    /// The asset (mint) identifier named by the request.
    pub token_mint: AccountId,
    /// The current wall-clock time, in seconds; positive in any real clock.
    pub now: u64,
}

/// A decoded operation request.  On the wire it is a discriminant byte (in
/// this variant order), followed for `Initialize` and `Deposit` by an 8-byte
/// little-endian amount.
#[derive(Clone, Copy, Debug, PartialEq, Eq, Structural)]
pub enum VaultInstruction {
    /// Create the owner's vault record, optionally locking a first deposit.
    Initialize { amount: u64 },
    /// Lock `amount` further units, restarting the maturity clock.
    Deposit { amount: u64 },
    /// Return the full balance before maturity, against a decaying fee.
    Withdraw,
    /// Return the full balance of a matured lock.
    Release,
    /// Accepted and ignored.
    Extend,
}

/// The record a request finds, as a plain optional value.
pub open spec fn spec_opt_vault(vault: Option<&Vault>) -> Option<Vault> {
    match vault {
        Some(v) => Some(*v),
        None => None,
    }
}

/// Decodes the operation payload and dispatches it against the current
/// vault record, returning the plan of transfers to perform and the record
/// to persist, or the exact failure.  An undecodable payload is rejected as
/// `MalformedRequest` before anything else is looked at.
pub fn process_instruction(
    cfg: &Config,
    req: &Request,
    vault: Option<&Vault>,
    instruction_data: &[u8],
) -> (r: Result<OperationPlan, VaultError>)
    requires
        cfg.wf(),
        req.now > 0,
        (vault matches Some(v) ==> v.deposit_timestamp <= req.now),
    ensures
        (match spec_parse_instruction(instruction_data@) {
            None => r == Err::<OperationPlan, VaultError>(VaultError::MalformedRequest),
            Some(ins) => match ins {
                VaultInstruction::Initialize { amount } => (match spec_initialize_error(
                    *cfg,
                    *req,
                    vault is Some,
                ) {
                    Some(e) => r == Err::<OperationPlan, VaultError>(e),
                    None => r matches Ok(p) && p.steps@ == spec_initialize_steps(
                        *cfg,
                        *req,
                        amount,
                    ) && p.new_vault == Some(
                        spec_initialize_vault(
                            *cfg,
                            *req,
                            amount,
                            spec_derived_bump(req.caller@, req.program_id@),
                        ),
                    ),
                }),
                VaultInstruction::Deposit { amount } => (match spec_deposit_error(
                    *cfg,
                    *req,
                    spec_opt_vault(vault),
                    amount,
                ) {
                    Some(e) => r == Err::<OperationPlan, VaultError>(e),
                    None => r matches Ok(p) && (vault matches Some(v) && p.steps@ == seq![
                        spec_deposit_step(*req, amount),
                    ] && p.new_vault == Some(spec_deposit_vault(*cfg, *req, *v, amount))),
                }),
                VaultInstruction::Withdraw => (match spec_withdraw_error(
                    *cfg,
                    *req,
                    spec_opt_vault(vault),
                ) {
                    Some(e) => r == Err::<OperationPlan, VaultError>(e),
                    None => r matches Ok(p) && (vault matches Some(v) && p.steps@
                        == spec_withdraw_steps(*cfg, *req, *v) && p.new_vault == Some(
                        spec_unlocked_vault(*v),
                    )),
                }),
                VaultInstruction::Release => (match spec_release_error(
                    *req,
                    spec_opt_vault(vault),
                ) {
                    Some(e) => r == Err::<OperationPlan, VaultError>(e),
                    None => r matches Ok(p) && (vault matches Some(v) && p.steps@
                        == spec_release_steps(*req, *v) && p.new_vault == Some(
                        spec_unlocked_vault(*v),
                    )),
                }),
                VaultInstruction::Extend => r matches Ok(p) && p.steps@.len() == 0
                    && p.new_vault is None,
            },
        }),
        (r matches Ok(p) ==> (p.new_vault matches Some(v) ==> v.wf())),
{
    let ins = match parse_instruction(instruction_data) {
        Ok(ins) => ins,
        Err(e) => {
            return Err(e);
        },
    };
    match ins {
        VaultInstruction::Initialize { amount } => initialize(cfg, req, vault.is_some(), amount),
        VaultInstruction::Deposit { amount } => deposit(cfg, req, vault, amount),
        VaultInstruction::Withdraw => withdraw(cfg, req, vault),
        VaultInstruction::Release => release(req, vault),
        VaultInstruction::Extend => extend(),
    }
}

} // verus!
