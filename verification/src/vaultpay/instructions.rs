//! Operations of the billing ledger. Each one either takes effect as a
//! whole or leaves every record and balance as it was.

pub mod cancel_subscription;
pub mod claim_treasury;
pub mod deposit;
pub mod init_subscription;
pub mod init_user;
pub mod init_vendor;
pub mod initialize;
pub mod process_payment;
pub mod withdraw;

use vstd::prelude::*;
use crate::pubkey::{
    find_vaultpay_authority_address, find_yield_account_address, find_yield_reserve_address,
    spec_vaultpay_authority_address, spec_yield_account_address, spec_yield_reserve_address,
    Pubkey,
};

verus! {

/// What the derivations returned for the addresses that a user's funds
/// pass through: the authority that acts for the user, the reserve of the
/// asset, and the yield account that the authority holds in it.
#[derive(Clone, Copy, Debug, PartialEq, Eq)]
pub struct DelegatedAddresses {
    pub vaultpay_authority: Option<(Pubkey, u8)>,
    pub yield_reserve: Option<(Pubkey, u8)>,
    pub yield_account: Option<(Pubkey, u8)>,
}

/// The derivations for `user` under `config`, with the given asset, reserve
/// and authority accounts.
pub open spec fn spec_delegated_addresses(
    config: Pubkey,
    user: Pubkey,
    token_mint: Pubkey,
    yield_reserve: Pubkey,
    vaultpay_authority: Pubkey,
) -> DelegatedAddresses {
    DelegatedAddresses {
        vaultpay_authority: spec_vaultpay_authority_address(config, user),
        yield_reserve: spec_yield_reserve_address(token_mint),
        yield_account: spec_yield_account_address(yield_reserve, vaultpay_authority),
    }
}

/// Derives the addresses that the funds of `user` pass through.
pub fn find_delegated_addresses(
    config: &Pubkey,
    user: &Pubkey,
    token_mint: &Pubkey,
    yield_reserve: &Pubkey,
    vaultpay_authority: &Pubkey,
) -> (r: DelegatedAddresses)
    ensures
        r == spec_delegated_addresses(
            *config,
            *user,
            *token_mint,
            *yield_reserve,
            *vaultpay_authority,
        ),
{
    DelegatedAddresses {
        vaultpay_authority: find_vaultpay_authority_address(config, user),
        yield_reserve: find_yield_reserve_address(token_mint),
        yield_account: find_yield_account_address(yield_reserve, vaultpay_authority),
    }
}

} // verus!
