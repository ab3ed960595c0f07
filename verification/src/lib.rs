//! A single-owner, time-locked token escrow ("vault").
//!
//! A user locks a quantity of a fungible asset for a fixed duration, may
//! withdraw early by paying a time-decaying penalty fee, or may release the
//! full balance once the lock matures.  The core here is the vault lifecycle
//! state machine, its authorization guards (signer presence, deterministic
//! address verification, allow-listed counterparties), and the early-exit fee
//! computation.  Every operation is a pure decision function: it validates a
//! request against the current vault record and either returns an error or a
//! plan of ledger transfers together with the record to persist afterwards.
//! Performing the transfers and persisting the record is the hosting
//! runtime's job, outside this crate.

pub mod account_id;
pub mod codec;
pub mod config;
pub mod derivation;
pub mod error;
pub mod fees;
pub mod guard;
pub mod instruction;
pub mod ledger;
pub mod processor;
pub mod state;
