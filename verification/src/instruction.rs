//! The lifecycle operations of the vault.

pub mod deposit;
pub mod extend;
pub mod initialize;
pub mod release;
pub mod withdraw;
