//! Persistent records of the escrow.

pub mod construct_vault;
