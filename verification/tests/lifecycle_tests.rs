//! The vault lifecycle: initialize, deposit, withdraw, release, extend.

use construct_vault_sol::account_id::AccountId;
use construct_vault_sol::config::deployed_config;
use construct_vault_sol::config::devnet_fee_receiver;
use construct_vault_sol::config::mainnet_mint;
use construct_vault_sol::config::Config;
use construct_vault_sol::derivation::derive_vault_address;
use construct_vault_sol::error::VaultError;
use construct_vault_sol::instruction::deposit::deposit;
use construct_vault_sol::instruction::extend::extend;
use construct_vault_sol::instruction::initialize::initialize;
use construct_vault_sol::instruction::release::release;
use construct_vault_sol::instruction::withdraw::withdraw;
use construct_vault_sol::ledger::finalize_after_transfers;
use construct_vault_sol::ledger::TransferAsset;
use construct_vault_sol::ledger::TransferAuthority;
use construct_vault_sol::ledger::TransferStep;
use construct_vault_sol::processor::Request;
use construct_vault_sol::state::construct_vault::Vault;

const DAY: u64 = 86400;
const T0: u64 = 1_700_000_000;

fn id(tag: u8) -> AccountId {
    AccountId { bytes: [tag; 32] }
}

fn test_config() -> Config {
    Config {
        asset_allow: vec![id(3)],
        fee_allow: vec![id(4)],
        ledger: id(9),
        lock_duration: 30 * DAY,
        entry_fee: 100_000_000,
        fee_rate_num: 3,
        fee_rate_den: 4,
        fee_basis: 5_000_000_000,
    }
}

fn test_request(now: u64) -> Request {
    let program_id = id(1);
    let caller = id(2);
    let (vault_address, _) = derive_vault_address(&caller, &program_id).unwrap();
    Request {
        program_id,
        caller,
        caller_is_signer: true,
        vault_address,
        vault_holding: id(5),
        vault_holding_owner: id(9),
        caller_asset_account: id(6),
        fee_receiver: id(4),
        token_mint: id(3),
        now,
    }
}

fn bump_of(req: &Request) -> u8 {
    derive_vault_address(&req.caller, &req.program_id).unwrap().1
}

#[test]
fn test_initialize_vault() {
    let cfg = test_config();
    let req = test_request(T0);
    let plan = initialize(&cfg, &req, false, 50_043).unwrap();
    assert_eq!(
        plan.steps,
        vec![
            TransferStep {
                from: req.caller,
                to: req.fee_receiver,
                amount: 100_000_000,
                asset: TransferAsset::Native,
                authority: TransferAuthority::Caller,
            },
            TransferStep {
                from: req.caller_asset_account,
                to: req.vault_holding,
                amount: 50_043,
                asset: TransferAsset::Locked,
                authority: TransferAuthority::Caller,
            },
        ]
    );
    assert_eq!(
        plan.new_vault,
        Some(Vault {
            owner: req.caller,
            lock_duration: 30 * DAY,
            amount_locked: 50_043,
            deposit_timestamp: T0,
            is_locked: true,
            bump: bump_of(&req),
        })
    );
}

#[test]
fn initialize_with_zero_deposit_is_unlocked() {
    let cfg = test_config();
    let req = test_request(T0);
    let plan = initialize(&cfg, &req, false, 0).unwrap();
    // Only the entry fee moves; the record is the unlocked baseline.
    assert_eq!(plan.steps.len(), 1);
    assert_eq!(plan.steps[0].amount, 100_000_000);
    let v = plan.new_vault.unwrap();
    assert!(!v.is_locked);
    assert_eq!(v.amount_locked, 0);
    assert_eq!(v.deposit_timestamp, 0);
    assert_eq!(v.lock_duration, 0);
}

#[test]
fn initialize_is_not_reentrant() {
    let cfg = test_config();
    let req = test_request(T0);
    let r = initialize(&cfg, &req, true, 50_043);
    assert_eq!(r, Err(VaultError::AlreadyInitialized));
}

#[test]
fn test_deposit() {
    let cfg = test_config();
    let req = test_request(T0 + 3 * DAY);
    let vault = Vault {
        owner: req.caller,
        lock_duration: 30 * DAY,
        amount_locked: 10_000,
        deposit_timestamp: T0,
        is_locked: true,
        bump: bump_of(&req),
    };
    let plan = deposit(&cfg, &req, Some(&vault), 50_043).unwrap();
    assert_eq!(
        plan.steps,
        vec![TransferStep {
            from: req.caller_asset_account,
            to: req.vault_holding,
            amount: 50_043,
            asset: TransferAsset::Locked,
            authority: TransferAuthority::Caller,
        }]
    );
    // The amount adds to the held balance, and the maturity clock restarts
    // for the combined balance.
    let v = plan.new_vault.unwrap();
    assert_eq!(v.amount_locked, 60_043);
    assert_eq!(v.deposit_timestamp, T0 + 3 * DAY);
    assert!(v.is_locked);
    assert_eq!(v.lock_duration, 30 * DAY);
    assert_eq!(v.owner, vault.owner);
    assert_eq!(v.bump, vault.bump);
}

#[test]
fn test_withdraw() {
    // Initialize with 50,043 units at T0, withdraw at T0 + 15 days under a
    // 30-day lock: completion 1/2, fee fraction 3/8 of the basis, and the
    // full balance comes back.
    let cfg = test_config();
    let init_req = test_request(T0);
    let vault = initialize(&cfg, &init_req, false, 50_043)
        .unwrap()
        .new_vault
        .unwrap();
    let req = test_request(T0 + 15 * DAY);
    let plan = withdraw(&cfg, &req, Some(&vault)).unwrap();
    assert_eq!(
        plan.steps,
        vec![
            TransferStep {
                from: req.caller,
                to: req.fee_receiver,
                amount: 1_875_000_000,
                asset: TransferAsset::Native,
                authority: TransferAuthority::Caller,
            },
            TransferStep {
                from: req.vault_holding,
                to: req.caller_asset_account,
                amount: 50_043,
                asset: TransferAsset::Locked,
                authority: TransferAuthority::DerivedVault { bump: vault.bump },
            },
        ]
    );
    let v = plan.new_vault.unwrap();
    assert_eq!(v.amount_locked, 0);
    assert!(!v.is_locked);
    assert_eq!(v.deposit_timestamp, 0);
    assert_eq!(v.lock_duration, 0);
}

#[test]
fn withdraw_after_maturity_equals_release() {
    let cfg = test_config();
    let req = test_request(T0 + 31 * DAY);
    let vault = Vault {
        owner: req.caller,
        lock_duration: 30 * DAY,
        amount_locked: 50_043,
        deposit_timestamp: T0,
        is_locked: true,
        bump: bump_of(&req),
    };
    let withdrawn = withdraw(&cfg, &req, Some(&vault)).unwrap();
    let released = release(&req, Some(&vault)).unwrap();
    // No fee step: the plans are identical, down to every field.
    assert_eq!(withdrawn, released);
    assert_eq!(withdrawn.steps.len(), 1);
    assert_eq!(withdrawn.steps[0].amount, 50_043);
}

#[test]
fn test_release() {
    let cfg = test_config();
    let req = test_request(T0 + 40 * DAY);
    let vault = Vault {
        owner: req.caller,
        lock_duration: 30 * DAY,
        amount_locked: 77,
        deposit_timestamp: T0,
        is_locked: true,
        bump: bump_of(&req),
    };
    let plan = release(&req, Some(&vault)).unwrap();
    assert_eq!(
        plan.steps,
        vec![TransferStep {
            from: req.vault_holding,
            to: req.caller_asset_account,
            amount: 77,
            asset: TransferAsset::Locked,
            authority: TransferAuthority::DerivedVault { bump: vault.bump },
        }]
    );
    assert_eq!(
        plan.new_vault,
        Some(Vault {
            owner: vault.owner,
            lock_duration: 0,
            amount_locked: 0,
            deposit_timestamp: 0,
            is_locked: false,
            bump: vault.bump,
        })
    );
    // Releasing again from the persisted unlocked record is refused.
    let unlocked = plan.new_vault.unwrap();
    assert_eq!(release(&req, Some(&unlocked)), Err(VaultError::NotLocked));
    assert_eq!(withdraw(&cfg, &req, Some(&unlocked)), Err(VaultError::NotLocked));
}

#[test]
fn test_extend() {
    let plan = extend().unwrap();
    assert!(plan.steps.is_empty());
    assert_eq!(plan.new_vault, None);
}

#[test]
fn unsigned_requests_are_refused() {
    let cfg = test_config();
    let mut req = test_request(T0);
    req.caller_is_signer = false;
    let vault = Vault {
        owner: req.caller,
        lock_duration: 30 * DAY,
        amount_locked: 1,
        deposit_timestamp: T0,
        is_locked: true,
        bump: 0,
    };
    assert_eq!(initialize(&cfg, &req, false, 5), Err(VaultError::MissingSignature));
    assert_eq!(deposit(&cfg, &req, Some(&vault), 5), Err(VaultError::MissingSignature));
    assert_eq!(withdraw(&cfg, &req, Some(&vault)), Err(VaultError::MissingSignature));
}

#[test]
fn unlisted_counterparties_are_refused() {
    let cfg = test_config();
    let mut req = test_request(T0);
    req.token_mint = id(33);
    assert_eq!(initialize(&cfg, &req, false, 5), Err(VaultError::NotAllowListed));
    let mut req = test_request(T0);
    req.fee_receiver = id(44);
    assert_eq!(initialize(&cfg, &req, false, 5), Err(VaultError::NotAllowListed));
    let vault = Vault {
        owner: req.caller,
        lock_duration: 30 * DAY,
        amount_locked: 1,
        deposit_timestamp: T0,
        is_locked: true,
        bump: 0,
    };
    assert_eq!(withdraw(&cfg, &req, Some(&vault)), Err(VaultError::NotAllowListed));
}

#[test]
fn wrong_vault_address_is_refused() {
    let cfg = test_config();
    let mut req = test_request(T0);
    req.vault_address = id(55);
    let vault = Vault {
        owner: req.caller,
        lock_duration: 30 * DAY,
        amount_locked: 1,
        deposit_timestamp: T0,
        is_locked: true,
        bump: 0,
    };
    assert_eq!(initialize(&cfg, &req, false, 5), Err(VaultError::AddressMismatch));
    assert_eq!(deposit(&cfg, &req, Some(&vault), 5), Err(VaultError::AddressMismatch));
    assert_eq!(withdraw(&cfg, &req, Some(&vault)), Err(VaultError::AddressMismatch));
    assert_eq!(release(&req, Some(&vault)), Err(VaultError::AddressMismatch));
}

#[test]
fn foreign_holding_account_is_refused() {
    let cfg = test_config();
    let mut req = test_request(T0);
    req.vault_holding_owner = id(77);
    let vault = Vault {
        owner: req.caller,
        lock_duration: 30 * DAY,
        amount_locked: 1,
        deposit_timestamp: T0,
        is_locked: true,
        bump: 0,
    };
    assert_eq!(deposit(&cfg, &req, Some(&vault), 5), Err(VaultError::InvalidAccountOwnership));
    assert_eq!(withdraw(&cfg, &req, Some(&vault)), Err(VaultError::InvalidAccountOwnership));
}

#[test]
fn missing_vault_is_refused() {
    let cfg = test_config();
    let req = test_request(T0);
    assert_eq!(deposit(&cfg, &req, None, 5), Err(VaultError::VaultNotFound));
    assert_eq!(withdraw(&cfg, &req, None), Err(VaultError::VaultNotFound));
    assert_eq!(release(&req, None), Err(VaultError::VaultNotFound));
}

#[test]
fn zero_deposit_is_refused() {
    let cfg = test_config();
    let req = test_request(T0);
    let vault = Vault {
        owner: req.caller,
        lock_duration: 30 * DAY,
        amount_locked: 1,
        deposit_timestamp: T0,
        is_locked: true,
        bump: 0,
    };
    assert_eq!(deposit(&cfg, &req, Some(&vault), 0), Err(VaultError::MalformedRequest));
}

#[test]
fn deposit_overflow_is_refused() {
    let cfg = test_config();
    let req = test_request(T0);
    let vault = Vault {
        owner: req.caller,
        lock_duration: 30 * DAY,
        amount_locked: u64::MAX,
        deposit_timestamp: T0,
        is_locked: true,
        bump: 0,
    };
    assert_eq!(deposit(&cfg, &req, Some(&vault), 1), Err(VaultError::ArithmeticOverflow));
}

#[test]
fn deployed_config_screens_counterparties() {
    let cfg = deployed_config();
    let mut req = test_request(T0);
    req.token_mint = mainnet_mint();
    req.fee_receiver = devnet_fee_receiver();
    req.vault_holding_owner = cfg.ledger;
    let plan = initialize(&cfg, &req, false, 1_000).unwrap();
    assert_eq!(plan.steps[0].amount, cfg.entry_fee);
    assert_eq!(plan.new_vault.unwrap().lock_duration, 30 * DAY);
    // A counterparty outside the deployed allow-lists is refused.
    req.token_mint = id(88);
    assert_eq!(initialize(&cfg, &req, false, 1_000), Err(VaultError::NotAllowListed));
}

#[test]
fn record_is_written_only_after_transfers_succeed() {
    let v = Vault {
        owner: id(2),
        lock_duration: 0,
        amount_locked: 0,
        deposit_timestamp: 0,
        is_locked: false,
        bump: 7,
    };
    assert_eq!(finalize_after_transfers(&v, true), Ok(v));
    assert_eq!(finalize_after_transfers(&v, false), Err(VaultError::TransferFailure));
}
