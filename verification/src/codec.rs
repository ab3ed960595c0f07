//! The fixed-width wire form of the vault record and of operation requests.
//!
//! A vault record is 58 bytes, field order significant:
//! `owner (32) | lock_duration (8) | amount_locked (8) | deposit_timestamp
//! (8) | is_locked (1) | bump (1)`, integers little-endian, the flag a single
//! `0` or `1` byte.  There are no variable-length fields and no version tag.

use vstd::bytes::spec_u64_from_le_bytes;
use vstd::bytes::spec_u64_to_le_bytes;
use vstd::bytes::u64_from_le_bytes;
use vstd::bytes::u64_to_le_bytes;
use vstd::prelude::*;
use vstd::slice::slice_subrange;

use crate::account_id::AccountId;
use crate::error::VaultError;
use crate::processor::VaultInstruction;
use crate::state::construct_vault::Vault;

verus! {

broadcast use vstd::array::group_array_axioms;

/// The single byte that stands for a flag.
pub open spec fn spec_bool_byte(b: bool) -> u8 {
    if b {
        1u8
    } else {
        0u8
    }
}

/// The 58-byte wire form of a vault record.
pub open spec fn spec_vault_bytes(v: Vault) -> Seq<u8> {
    v.owner@ + spec_u64_to_le_bytes(v.lock_duration) + spec_u64_to_le_bytes(v.amount_locked)
        + spec_u64_to_le_bytes(v.deposit_timestamp) + seq![spec_bool_byte(v.is_locked)]
        + seq![v.bump]
}

/// Which byte strings decode to a vault record: exactly 58 bytes whose flag
/// byte is `0` or `1`.
pub open spec fn spec_vault_decodable(s: Seq<u8>) -> bool {
    s.len() == 58 && (s[56] == 0 || s[56] == 1)
}

/// The wire form is always 58 bytes.
pub proof fn lemma_vault_bytes_len(v: Vault)
    ensures
        spec_vault_bytes(v).len() == 58,
        spec_vault_decodable(spec_vault_bytes(v)),
{
    vstd::bytes::lemma_auto_spec_u64_to_from_le_bytes();
    assert(spec_vault_bytes(v)[56] == spec_bool_byte(v.is_locked));
}

/// Serialization is injective: two records with the same wire form hold the
/// identical field values.  Together with the contracts of
/// [`serialize_vault`] and [`deserialize_vault`] this is the round-trip law:
/// deserializing a serialized record reproduces every field.
pub proof fn lemma_vault_bytes_injective(v1: Vault, v2: Vault)
    requires
        spec_vault_bytes(v1) == spec_vault_bytes(v2),
    ensures
        v1 == v2,
{
    vstd::bytes::lemma_auto_spec_u64_to_from_le_bytes();
    let b1 = spec_vault_bytes(v1);
    let b2 = spec_vault_bytes(v2);
    assert(v1.owner@ =~= b1.subrange(0, 32));
    assert(v2.owner@ =~= b2.subrange(0, 32));
    AccountId::lemma_view_injective(v1.owner, v2.owner);
    assert(spec_u64_to_le_bytes(v1.lock_duration) =~= b1.subrange(32, 40));
    assert(spec_u64_to_le_bytes(v2.lock_duration) =~= b2.subrange(32, 40));
    assert(spec_u64_to_le_bytes(v1.amount_locked) =~= b1.subrange(40, 48));
    assert(spec_u64_to_le_bytes(v2.amount_locked) =~= b2.subrange(40, 48));
    assert(spec_u64_to_le_bytes(v1.deposit_timestamp) =~= b1.subrange(48, 56));
    assert(spec_u64_to_le_bytes(v2.deposit_timestamp) =~= b2.subrange(48, 56));
    assert(b1[56] == spec_bool_byte(v1.is_locked));
    assert(b2[56] == spec_bool_byte(v2.is_locked));
    assert(b1[57] == v1.bump);
    assert(b2[57] == v2.bump);
}

/// The record a byte string decodes to, where any does: serialization is
/// injective, so the record is unique.
pub open spec fn spec_parse_vault(s: Seq<u8>) -> Option<Vault> {
    if exists|v: Vault| spec_vault_bytes(v) == s {
        Some(choose|v: Vault| spec_vault_bytes(v) == s)
    } else {
        None
    }
}

/// Round trip: serializing a vault record and then parsing the bytes back
/// reproduces the identical field values, for any combination of fields —
/// including a zero balance and a cleared lock flag.
pub proof fn lemma_vault_round_trip(v: Vault)
    ensures
        spec_parse_vault(spec_vault_bytes(v)) == Some(v),
{
    assert(exists|w: Vault| spec_vault_bytes(w) == spec_vault_bytes(v));
    let w = choose|w: Vault| spec_vault_bytes(w) == spec_vault_bytes(v);
    lemma_vault_bytes_injective(w, v);
}

/// Writes the 58-byte wire form of `v`.
pub fn serialize_vault(v: &Vault) -> (out: Vec<u8>)
    ensures
        out@ == spec_vault_bytes(*v),
        out@.len() == 58,
{
    proof {
        lemma_vault_bytes_len(*v);
    }
    let mut out: Vec<u8> = Vec::new();
    let mut i: usize = 0;
    while i < 32
        invariant
            0 <= i <= 32,
            out@.len() == i,
            forall|j: int| 0 <= j < i ==> out@[j] == v.owner.bytes[j],
        decreases 32 - i,
    {
        out.push(v.owner.bytes[i]);
        i += 1;
    }
    assert(out@ =~= v.owner@);
    let mut part = u64_to_le_bytes(v.lock_duration);
    out.append(&mut part);
    let mut part = u64_to_le_bytes(v.amount_locked);
    out.append(&mut part);
    let mut part = u64_to_le_bytes(v.deposit_timestamp);
    out.append(&mut part);
    if v.is_locked {
        out.push(1);
    } else {
        out.push(0);
    }
    out.push(v.bump);
    proof {
        assert(out@ =~= spec_vault_bytes(*v));
    }
    out
}

/// Reads a vault record back from its 58-byte wire form; any other input is
/// rejected as undecodable.
pub fn deserialize_vault(bytes: &[u8]) -> (r: Result<Vault, VaultError>)
    ensures
        r matches Ok(v) ==> spec_vault_bytes(v) == bytes@,
        r matches Ok(v) ==> spec_parse_vault(bytes@) == Some(v),
        r is Ok <==> spec_vault_decodable(bytes@),
        r matches Err(e) ==> e == VaultError::MalformedRequest,
{
    proof {
        vstd::bytes::lemma_auto_spec_u64_to_from_le_bytes();
    }
    if bytes.len() != 58 {
        return Err(VaultError::MalformedRequest);
    }
    let mut owner_bytes: [u8; 32] = [0u8; 32];
    let mut i: usize = 0;
    while i < 32
        invariant
            0 <= i <= 32,
            bytes@.len() == 58,
            forall|j: int| 0 <= j < i ==> owner_bytes[j] == bytes@[j],
        decreases 32 - i,
    {
        owner_bytes[i] = *vstd::slice::slice_index_get(bytes, i);
        i += 1;
    }
    let owner = AccountId { bytes: owner_bytes };
    assert(owner@ =~= bytes@.subrange(0, 32));
    let lock_duration = u64_from_le_bytes(slice_subrange(bytes, 32, 40));
    let amount_locked = u64_from_le_bytes(slice_subrange(bytes, 40, 48));
    let deposit_timestamp = u64_from_le_bytes(slice_subrange(bytes, 48, 56));
    let flag = *vstd::slice::slice_index_get(bytes, 56);
    let is_locked = if flag == 1 {
        true
    } else if flag == 0 {
        false
    } else {
        return Err(VaultError::MalformedRequest);
    };
    let bump = *vstd::slice::slice_index_get(bytes, 57);
    let v = Vault { owner, lock_duration, amount_locked, deposit_timestamp, is_locked, bump };
    proof {
        assert(spec_u64_to_le_bytes(v.lock_duration) == bytes@.subrange(32, 40));
        assert(spec_u64_to_le_bytes(v.amount_locked) == bytes@.subrange(40, 48));
        assert(spec_u64_to_le_bytes(v.deposit_timestamp) == bytes@.subrange(48, 56));
        assert(spec_vault_bytes(v) =~= bytes@);
        lemma_vault_round_trip(v);
    }
    Ok(v)
}

/// The wire form of an operation request: the discriminant byte, then for
/// `Initialize` and `Deposit` the 8-byte little-endian amount.
pub open spec fn spec_instruction_bytes(ins: VaultInstruction) -> Seq<u8> {
    match ins {
        VaultInstruction::Initialize { amount } => seq![0u8] + spec_u64_to_le_bytes(amount),
        VaultInstruction::Deposit { amount } => seq![1u8] + spec_u64_to_le_bytes(amount),
        VaultInstruction::Withdraw => seq![2u8],
        VaultInstruction::Release => seq![3u8],
        VaultInstruction::Extend => seq![4u8],
    }
}

/// Which byte strings decode to a request, with nothing left over.
pub open spec fn spec_instruction_decodable(s: Seq<u8>) -> bool {
    ||| (s.len() == 9 && (s[0] == 0 || s[0] == 1))
    ||| (s.len() == 1 && (s[0] == 2 || s[0] == 3 || s[0] == 4))
}

/// The request a byte string decodes to, where it decodes at all.
pub open spec fn spec_parse_instruction(s: Seq<u8>) -> Option<VaultInstruction> {
    if !spec_instruction_decodable(s) {
        None
    } else if s[0] == 0 {
        Some(VaultInstruction::Initialize { amount: spec_u64_from_le_bytes(s.subrange(1, 9)) })
    } else if s[0] == 1 {
        Some(VaultInstruction::Deposit { amount: spec_u64_from_le_bytes(s.subrange(1, 9)) })
    } else if s[0] == 2 {
        Some(VaultInstruction::Withdraw)
    } else if s[0] == 3 {
        Some(VaultInstruction::Release)
    } else {
        Some(VaultInstruction::Extend)
    }
}

/// Writes the wire form of a request.
pub fn encode_instruction(ins: &VaultInstruction) -> (out: Vec<u8>)
    ensures
        out@ == spec_instruction_bytes(*ins),
{
    let mut out: Vec<u8> = Vec::new();
    match ins {
        VaultInstruction::Initialize { amount } => {
            out.push(0);
            let mut part = u64_to_le_bytes(*amount);
            out.append(&mut part);
        },
        VaultInstruction::Deposit { amount } => {
            out.push(1);
            let mut part = u64_to_le_bytes(*amount);
            out.append(&mut part);
        },
        VaultInstruction::Withdraw => {
            out.push(2);
        },
        VaultInstruction::Release => {
            out.push(3);
        },
        VaultInstruction::Extend => {
            out.push(4);
        },
    }
    proof {
        assert(out@ =~= spec_instruction_bytes(*ins));
    }
    out
}

/// Round trip: encoding a request and then decoding the bytes yields the
/// identical request.
pub proof fn lemma_instruction_round_trip(ins: VaultInstruction)
    ensures
        spec_parse_instruction(spec_instruction_bytes(ins)) == Some(ins),
{
    vstd::bytes::lemma_auto_spec_u64_to_from_le_bytes();
    let s = spec_instruction_bytes(ins);
    match ins {
        VaultInstruction::Initialize { amount } => {
            assert(s.subrange(1, 9) =~= spec_u64_to_le_bytes(amount));
        },
        VaultInstruction::Deposit { amount } => {
            assert(s.subrange(1, 9) =~= spec_u64_to_le_bytes(amount));
        },
        VaultInstruction::Withdraw => {},
        VaultInstruction::Release => {},
        VaultInstruction::Extend => {},
    }
}

/// Decodes an operation request; an undecodable payload is rejected.
pub fn parse_instruction(bytes: &[u8]) -> (r: Result<VaultInstruction, VaultError>)
    ensures
        r matches Ok(ins) ==> spec_instruction_bytes(ins) == bytes@,
        r matches Ok(ins) ==> spec_parse_instruction(bytes@) == Some(ins),
        r is Ok <==> spec_instruction_decodable(bytes@),
        r matches Err(e) ==> e == VaultError::MalformedRequest,
{
    proof {
        vstd::bytes::lemma_auto_spec_u64_to_from_le_bytes();
    }
    if bytes.len() == 0 {
        return Err(VaultError::MalformedRequest);
    }
    let tag = *vstd::slice::slice_index_get(bytes, 0);
    if tag == 0 || tag == 1 {
        if bytes.len() != 9 {
            return Err(VaultError::MalformedRequest);
        }
        let amount = u64_from_le_bytes(slice_subrange(bytes, 1, 9));
        let ins = if tag == 0 {
            VaultInstruction::Initialize { amount }
        } else {
            VaultInstruction::Deposit { amount }
        };
        proof {
            assert(spec_u64_to_le_bytes(amount) == bytes@.subrange(1, 9));
            assert(spec_instruction_bytes(ins) =~= bytes@);
        }
        Ok(ins)
    } else if tag == 2 || tag == 3 || tag == 4 {
        if bytes.len() != 1 {
            return Err(VaultError::MalformedRequest);
        }
        let ins = if tag == 2 {
            VaultInstruction::Withdraw
        } else if tag == 3 {
            VaultInstruction::Release
        } else {
            VaultInstruction::Extend
        };
        proof {
            assert(spec_instruction_bytes(ins) =~= bytes@);
        }
        Ok(ins)
    } else {
        Err(VaultError::MalformedRequest)
    }
}

} // verus!
