//! Address derivation and the deployed configuration constants.

use std::str::FromStr;

use construct_vault_sol::account_id::AccountId;
use construct_vault_sol::config::deployed_config;
use construct_vault_sol::config::devnet_fee_receiver;
use construct_vault_sol::config::devnet_mint;
use construct_vault_sol::config::mainnet_fee_receiver;
use construct_vault_sol::config::mainnet_mint;
use construct_vault_sol::derivation::derive_vault_address;
use construct_vault_sol::derivation::seed_prefix;
use solana_program::pubkey::Pubkey;

#[test]
fn derivation_is_deterministic() {
    let owner = AccountId { bytes: [11u8; 32] };
    let program = AccountId { bytes: [22u8; 32] };
    let first = derive_vault_address(&owner, &program).unwrap();
    let second = derive_vault_address(&owner, &program).unwrap();
    assert_eq!(first.0.bytes, second.0.bytes);
    assert_eq!(first.1, second.1);
}

#[test]
fn derivation_depends_on_the_owner() {
    let program = AccountId { bytes: [22u8; 32] };
    let a = derive_vault_address(&AccountId { bytes: [11u8; 32] }, &program).unwrap();
    let b = derive_vault_address(&AccountId { bytes: [12u8; 32] }, &program).unwrap();
    assert_ne!(a.0.bytes, b.0.bytes);
    // The derived address is not the owner handed in.
    assert_ne!(a.0.bytes, [11u8; 32]);
}

#[test]
fn derivation_matches_the_ledger_runtime() {
    // The same seeds through the runtime's own derivation yield the same
    // address and nonce.
    let owner = AccountId { bytes: [3u8; 32] };
    let program = AccountId { bytes: [4u8; 32] };
    let (address, bump) = derive_vault_address(&owner, &program).unwrap();
    let (expected, expected_bump) = Pubkey::find_program_address(
        &[&seed_prefix(), &owner.bytes],
        &Pubkey::new_from_array(program.bytes),
    );
    assert_eq!(address.bytes, expected.to_bytes());
    assert_eq!(bump, expected_bump);
}

#[test]
fn seed_prefix_is_the_vault_label() {
    assert_eq!(seed_prefix(), b"kuza_vault".to_vec());
}

#[test]
fn deployed_identifiers_match_their_known_addresses() {
    let cases = [
        (mainnet_mint(), "3PKZCeF6RVw6sAGqCV5BGCATE1gu3bPceWXhfasapXVS"),
        (devnet_mint(), "AQYzQ3ZS9tXjhYMuVQ8tGoZMVV5DSuucaJB16mzXic9d"),
        (mainnet_fee_receiver(), "5zaUUZWoXaWt2Ht5NNQZuQXyfaQKDLyQoESn6BXvVzBd"),
        (devnet_fee_receiver(), "8jHMkdtKK4CCn4ep6Hponmk1ik7ofUNS9bX9qSuiRcN5"),
    ];
    for (id, base58) in cases {
        assert_eq!(id.bytes, Pubkey::from_str(base58).unwrap().to_bytes());
    }
    assert_eq!(deployed_config().ledger.bytes, spl_token::id().to_bytes());
}

#[test]
fn deployed_config_constants() {
    let cfg = deployed_config();
    assert_eq!(cfg.lock_duration, 30 * 86400);
    assert_eq!(cfg.entry_fee, 100_000_000);
    assert_eq!(cfg.fee_rate_num, 3);
    assert_eq!(cfg.fee_rate_den, 4);
    assert_eq!(cfg.fee_basis, 5_000_000_000);
    assert_eq!(cfg.asset_allow, vec![mainnet_mint(), devnet_mint()]);
    assert_eq!(cfg.fee_allow, vec![mainnet_fee_receiver(), devnet_fee_receiver()]);
    assert_eq!(cfg.ledger.bytes, spl_token::id().to_bytes());
}
