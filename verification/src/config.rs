//! Deployment configuration: counterparty allow-lists and fee parameters.
//!
//! The acceptable asset and fee-recipient identifiers, the expected ledger
//! program, the fixed lock duration and the fee constants are carried as an
//! explicit configuration value handed to every operation, selected once at
//! process start, so that a test environment can substitute its own.

use vstd::prelude::*;

use crate::account_id::AccountId;
use crate::state::construct_vault::Vault;

verus! {

broadcast use vstd::array::group_array_axioms;

/// The configuration every operation validates against.
pub struct Config {
    /// Allow-listed asset (mint) identifiers.
    pub asset_allow: Vec<AccountId>,
    /// Allow-listed fee-recipient identifiers.
    pub fee_allow: Vec<AccountId>,
    /// The ledger program expected to administer token-holding accounts.
    pub ledger: AccountId,
    /// The fixed lock duration, in seconds.
    pub lock_duration: u64,
    /// The protocol entry fee, in units of the native settlement asset.
    pub entry_fee: u64,
    /// Numerator of the early-exit base fee rate.
    pub fee_rate_num: u64,
    /// Denominator of the early-exit base fee rate; always positive.
    pub fee_rate_den: u64,
    /// The early-exit fee basis, in units of the native settlement asset.
    pub fee_basis: u64,
}

impl Config {
    /// A usable configuration never divides by a zero rate denominator.
    pub open spec fn wf(self) -> bool {
        self.fee_rate_den > 0
    }
}

/// The deployed asset identifier of the main environment.
pub open spec fn spec_mainnet_mint() -> Seq<u8> {
    seq![
        35u8, 111u8, 33u8, 207u8, 34u8, 9u8, 60u8, 36u8, 156u8, 218u8, 249u8, 46u8, 192u8, 252u8,
        202u8, 214u8, 180u8, 63u8, 221u8, 205u8, 76u8, 5u8, 243u8, 188u8, 189u8, 243u8, 64u8,
        168u8, 8u8, 212u8, 195u8, 145u8,
    ]
}

/// The deployed asset identifier of the development environment.
pub open spec fn spec_devnet_mint() -> Seq<u8> {
    seq![
        139u8, 193u8, 182u8, 50u8, 192u8, 167u8, 4u8, 182u8, 205u8, 141u8, 250u8, 69u8, 152u8,
        124u8, 127u8, 72u8, 153u8, 7u8, 109u8, 209u8, 138u8, 208u8, 48u8, 232u8, 189u8, 77u8,
        214u8, 237u8, 52u8, 54u8, 254u8, 72u8,
    ]
}

/// The deployed fee recipient of the main environment.
pub open spec fn spec_mainnet_fee_receiver() -> Seq<u8> {
    seq![
        74u8, 46u8, 179u8, 226u8, 1u8, 0u8, 176u8, 27u8, 56u8, 98u8, 217u8, 186u8, 73u8, 253u8,
        124u8, 39u8, 151u8, 76u8, 121u8, 148u8, 55u8, 6u8, 14u8, 86u8, 205u8, 164u8, 127u8, 134u8,
        36u8, 16u8, 38u8, 220u8,
    ]
}

/// The deployed fee recipient of the development environment.
pub open spec fn spec_devnet_fee_receiver() -> Seq<u8> {
    seq![
        114u8, 214u8, 178u8, 194u8, 255u8, 194u8, 194u8, 233u8, 230u8, 47u8, 122u8, 149u8, 126u8,
        50u8, 33u8, 16u8, 108u8, 230u8, 74u8, 26u8, 195u8, 221u8, 29u8, 170u8, 222u8, 199u8,
        100u8, 249u8, 61u8, 254u8, 96u8, 194u8,
    ]
}

/// The ledger program identifier that administers fungible-token accounts.
pub open spec fn spec_token_program_id() -> Seq<u8> {
    seq![
        6u8, 221u8, 246u8, 225u8, 215u8, 101u8, 161u8, 147u8, 217u8, 203u8, 225u8, 70u8, 206u8,
        235u8, 121u8, 172u8, 28u8, 180u8, 133u8, 237u8, 95u8, 91u8, 55u8, 145u8, 58u8, 140u8,
        245u8, 133u8, 126u8, 255u8, 0u8, 169u8,
    ]
}

/// Relies on `spl_token::id`: the constant identifier of the fungible-token
/// ledger program.
#[verifier::external_body]
pub(crate) fn token_program_id() -> (r: AccountId)
    ensures
        r@ == spec_token_program_id(),
{
    AccountId { bytes: spl_token::id().to_bytes() }
}

/// The deployed asset identifier of the main environment, as plain bytes.
pub fn mainnet_mint() -> (r: AccountId)
    ensures
        r@ == spec_mainnet_mint(),
{
    let bytes: [u8; 32] = [
        35, 111, 33, 207, 34, 9, 60, 36, 156, 218, 249, 46, 192, 252, 202, 214, 180, 63, 221, 205,
        76, 5, 243, 188, 189, 243, 64, 168, 8, 212, 195, 145,
    ];
    let r = AccountId { bytes };
    proof {
        assert(r@ =~= spec_mainnet_mint());
    }
    r
}

/// The deployed asset identifier of the development environment.
pub fn devnet_mint() -> (r: AccountId)
    ensures
        r@ == spec_devnet_mint(),
{
    let bytes: [u8; 32] = [
        139, 193, 182, 50, 192, 167, 4, 182, 205, 141, 250, 69, 152, 124, 127, 72, 153, 7, 109,
        209, 138, 208, 48, 232, 189, 77, 214, 237, 52, 54, 254, 72,
    ];
    let r = AccountId { bytes };
    proof {
        assert(r@ =~= spec_devnet_mint());
    }
    r
}

/// The deployed fee recipient of the main environment.
pub fn mainnet_fee_receiver() -> (r: AccountId)
    ensures
        r@ == spec_mainnet_fee_receiver(),
{
    let bytes: [u8; 32] = [
        74, 46, 179, 226, 1, 0, 176, 27, 56, 98, 217, 186, 73, 253, 124, 39, 151, 76, 121, 148,
        55, 6, 14, 86, 205, 164, 127, 134, 36, 16, 38, 220,
    ];
    let r = AccountId { bytes };
    proof {
        assert(r@ =~= spec_mainnet_fee_receiver());
    }
    r
}

/// The deployed fee recipient of the development environment.
pub fn devnet_fee_receiver() -> (r: AccountId)
    ensures
        r@ == spec_devnet_fee_receiver(),
{
    let bytes: [u8; 32] = [
        114, 214, 178, 194, 255, 194, 194, 233, 230, 47, 122, 149, 126, 50, 33, 16, 108, 230, 74,
        26, 195, 221, 29, 170, 222, 199, 100, 249, 61, 254, 96, 194,
    ];
    let r = AccountId { bytes };
    proof {
        assert(r@ =~= spec_devnet_fee_receiver());
    }
    r
}

/// The configuration this escrow ships with: both environments' asset and
/// fee-recipient identifiers allow-listed, a 30-day lock, a fixed protocol
/// entry fee, and an early-exit base rate of 3/4 over a basis of five
/// billion native units.
pub fn deployed_config() -> (r: Config)
    ensures
        r.wf(),
        r.asset_allow@.len() == 2,
        r.asset_allow@[0]@ == spec_mainnet_mint(),
        r.asset_allow@[1]@ == spec_devnet_mint(),
        r.fee_allow@.len() == 2,
        r.fee_allow@[0]@ == spec_mainnet_fee_receiver(),
        r.fee_allow@[1]@ == spec_devnet_fee_receiver(),
        r.ledger@ == spec_token_program_id(),
        r.lock_duration == 2592000,
        r.entry_fee == 100000000,
        r.fee_rate_num == 3,
        r.fee_rate_den == 4,
        r.fee_basis == 5000000000,
{
    let mut asset_allow: Vec<AccountId> = Vec::new();
    asset_allow.push(mainnet_mint());
    asset_allow.push(devnet_mint());
    let mut fee_allow: Vec<AccountId> = Vec::new();
    fee_allow.push(mainnet_fee_receiver());
    fee_allow.push(devnet_fee_receiver());
    Config {
        asset_allow,
        fee_allow,
        ledger: token_program_id(),
        lock_duration: Vault::LOCK_DURATION,
        entry_fee: 100000000,
        fee_rate_num: 3,
        fee_rate_den: 4,
        fee_basis: 5000000000,
    }
}

} // verus!
