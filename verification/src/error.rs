//! The failure reasons an operation can surface.

use vstd::prelude::*;

verus! {

/// Every way an operation on the vault can fail.  Each guard failure aborts
/// the whole operation: no partial state change is ever visible.
#[derive(Clone, Copy, Debug, PartialEq, Eq, Structural)]
pub enum VaultError {
    /// The caller did not cryptographically authorize the request.
    MissingSignature,
    /// The supplied vault address is not the one derived from the owner.
    AddressMismatch,
    /// An asset or fee-recipient identifier is not on the active allow-list.
    NotAllowListed,
    /// A token-holding account is not administered by the expected ledger.
    InvalidAccountOwnership,
    /// A vault record already exists at the derived address.
    AlreadyInitialized,
    /// No vault record exists where one is required.
    VaultNotFound,
    /// Release or withdraw was attempted on an unlocked vault.
    NotLocked,
    /// An amount addition or the fee computation exceeded the representable
    /// range.
    ArithmeticOverflow,
    /// A ledger transfer the operation depended on failed.
    TransferFailure,
    /// The operation payload could not be decoded.
    MalformedRequest,
}

} // verus!
