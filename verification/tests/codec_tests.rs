//! Wire-format round trips and cross-checks against an independent encoder.

use construct_vault_sol::account_id::AccountId;
use construct_vault_sol::codec::deserialize_vault;
use construct_vault_sol::codec::encode_instruction;
use construct_vault_sol::codec::parse_instruction;
use construct_vault_sol::codec::serialize_vault;
use construct_vault_sol::error::VaultError;
use construct_vault_sol::processor::VaultInstruction;
use construct_vault_sol::state::construct_vault::Vault;

fn sample_vault() -> Vault {
    Vault {
        owner: AccountId { bytes: [7u8; 32] },
        lock_duration: 2_592_000,
        amount_locked: 50_043,
        deposit_timestamp: 1_700_000_000,
        is_locked: true,
        bump: 254,
    }
}

#[test]
fn vault_round_trip() {
    let v = sample_vault();
    let bytes = serialize_vault(&v);
    assert_eq!(bytes.len(), 58);
    assert_eq!(deserialize_vault(&bytes), Ok(v));
}

#[test]
fn vault_round_trip_unlocked_zero() {
    // The round trip holds for any valid field combination, including a
    // zero balance with the lock flag cleared.
    let v = Vault {
        owner: AccountId { bytes: [0u8; 32] },
        lock_duration: 0,
        amount_locked: 0,
        deposit_timestamp: 0,
        is_locked: false,
        bump: 0,
    };
    let bytes = serialize_vault(&v);
    assert_eq!(deserialize_vault(&bytes), Ok(v));
}

#[test]
fn vault_round_trip_extreme_values() {
    let mut owner = [0u8; 32];
    for (i, b) in owner.iter_mut().enumerate() {
        *b = i as u8;
    }
    let v = Vault {
        owner: AccountId { bytes: owner },
        lock_duration: u64::MAX,
        amount_locked: u64::MAX,
        deposit_timestamp: u64::MAX,
        is_locked: true,
        bump: 255,
    };
    let bytes = serialize_vault(&v);
    assert_eq!(deserialize_vault(&bytes), Ok(v));
}

#[test]
fn vault_bytes_match_borsh_layout() {
    // The 58-byte layout is exactly the field-by-field little-endian form;
    // borsh on the equivalent tuple produces the identical bytes.
    let v = sample_vault();
    let independent = borsh::to_vec(&(
        v.owner.bytes,
        v.lock_duration,
        v.amount_locked,
        v.deposit_timestamp,
        v.is_locked,
        v.bump,
    ))
    .unwrap();
    assert_eq!(serialize_vault(&v), independent);
}

#[test]
fn vault_wrong_length_rejected() {
    let v = sample_vault();
    let mut bytes = serialize_vault(&v);
    bytes.push(0);
    assert_eq!(deserialize_vault(&bytes), Err(VaultError::MalformedRequest));
    assert_eq!(deserialize_vault(&bytes[..57]), Err(VaultError::MalformedRequest));
    assert_eq!(deserialize_vault(&[]), Err(VaultError::MalformedRequest));
}

#[test]
fn vault_bad_flag_byte_rejected() {
    let v = sample_vault();
    let mut bytes = serialize_vault(&v);
    bytes[56] = 2;
    assert_eq!(deserialize_vault(&bytes), Err(VaultError::MalformedRequest));
}

#[test]
fn instruction_round_trips() {
    let cases = vec![
        VaultInstruction::Initialize { amount: 50_043 },
        VaultInstruction::Deposit { amount: 10_000 },
        VaultInstruction::Withdraw,
        VaultInstruction::Release,
        VaultInstruction::Extend,
    ];
    for ins in cases {
        let bytes = encode_instruction(&ins);
        assert_eq!(parse_instruction(&bytes), Ok(ins));
    }
}

#[test]
fn instruction_bytes_match_borsh_layout() {
    // Tag byte then the little-endian amount, as borsh writes an enum with
    // a u64 payload.
    let bytes = encode_instruction(&VaultInstruction::Initialize { amount: 50_043 });
    let independent = borsh::to_vec(&(0u8, 50_043u64)).unwrap();
    assert_eq!(bytes, independent);
    let bytes = encode_instruction(&VaultInstruction::Withdraw);
    assert_eq!(bytes, vec![2u8]);
}

#[test]
fn instruction_malformed_rejected() {
    // Empty, unknown tag, wrong payload length, trailing garbage.
    assert_eq!(parse_instruction(&[]), Err(VaultError::MalformedRequest));
    assert_eq!(parse_instruction(&[9]), Err(VaultError::MalformedRequest));
    assert_eq!(parse_instruction(&[0, 1, 2]), Err(VaultError::MalformedRequest));
    assert_eq!(parse_instruction(&[2, 0]), Err(VaultError::MalformedRequest));
    let mut bytes = encode_instruction(&VaultInstruction::Deposit { amount: 1 });
    bytes.push(0);
    assert_eq!(parse_instruction(&bytes), Err(VaultError::MalformedRequest));
}
