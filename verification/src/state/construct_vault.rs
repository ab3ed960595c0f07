//! The per-owner vault record.

use vstd::prelude::*;

use crate::account_id::AccountId;

verus! {

/// The escrow record kept at the owner's derived vault address: one record
/// per owner, created once and persisted indefinitely, holding the lock
/// state and the locked balance.
#[derive(Clone, Copy, Debug, PartialEq)]
pub struct Vault {
    /// The depositor's identity; set once at creation, immutable thereafter.
    pub owner: AccountId,
    /// Seconds the deposit must remain locked; 0 while nothing is locked.
    pub lock_duration: u64,
    /// Units of the asset currently held; 0 when unlocked.
    pub amount_locked: u64,
    /// Wall-clock time of the most recent lock-establishing deposit; 0 when
    /// unlocked.
    pub deposit_timestamp: u64,
    /// True exactly while a maturity clock is running on a positive balance.
    pub is_locked: bool,
    /// The derivation nonce that made the vault's address derivation
    /// succeed; stored so the vault's authority can be reproduced.
    pub bump: u8,
}

impl Vault {
    /// Size in bytes of the serialized record.
    pub const SIZE: usize = 58;

    /// The fixed lock duration, in seconds: 30 days.
    pub const LOCK_DURATION: u64 = 60 * 60 * 24 * 30;

    /// The record invariant: the lock flag is set exactly when a positive
    /// balance is held and its deposit time is recorded.
    pub open spec fn wf(self) -> bool {
        self.is_locked <==> (self.amount_locked > 0 && self.deposit_timestamp > 0)
    }

    /// A fresh, unlocked baseline record for `owner`.
    pub fn new(owner: AccountId, amount_locked: u64) -> (v: Vault)
        ensures
            v == (Vault {
                owner,
                lock_duration: 0,
                amount_locked,
                deposit_timestamp: 0,
                is_locked: false,
                bump: 0,
            }),
    {
        Vault {
            owner,
            lock_duration: 0,
            amount_locked,
            deposit_timestamp: 0,
            is_locked: false,
            bump: 0,
        }
    }
}

} // verus!
