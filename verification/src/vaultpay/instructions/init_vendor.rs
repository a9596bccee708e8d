//! Registering a vendor.

use vstd::prelude::*;
use crate::pubkey::Pubkey;
use crate::token::TokenAccount;
use crate::vaultpay::errors::VaultPayError;
use crate::vaultpay::states::{Config, Vendor};

verus! {

/// The bump found for the vendor record that `InitVendor` creates.
#[derive(Clone, Copy, Debug, PartialEq, Eq, Structural)]
pub struct InitVendorBumps {
    pub vendor: u8,
}

/// The accounts of the operation that registers a vendor.
#[derive(Clone, Copy, Debug, PartialEq, Eq)]
pub struct InitVendor {
    pub vendor_signer: Pubkey,
    pub token_mint: Pubkey,
    pub config_key: Pubkey,
    pub config: Config,
    pub vendor_key: Pubkey,
    pub vendor: Vendor,
    pub vendor_token_account: TokenAccount,
}

impl InitVendor {
    /// The vendor record that `init_vendor` writes. A new vendor is
    /// whitelisted.
    pub open spec fn spec_vendor(self, seed: u64, bumps: InitVendorBumps) -> Vendor {
        Vendor {
            authority: self.vendor_signer,
            vendor_wallet: self.vendor_token_account.key,
            seed,
            is_whitelisted: true,
            bump: bumps.vendor,
        }
    }

    /// Registers the signer as a vendor who is paid into
    /// `vendor_token_account`. Nothing can go wrong.
    pub fn init_vendor(&mut self, seed: u64, bumps: &InitVendorBumps) -> (r: Result<
        (),
        VaultPayError,
    >)
        ensures
            r is Ok,
            *final(self) == (InitVendor {
                vendor: old(self).spec_vendor(seed, *bumps),
                ..*old(self)
            }),
    {
        self.vendor = Vendor {
            authority: self.vendor_signer,
            vendor_wallet: self.vendor_token_account.key,
            seed,
            is_whitelisted: true,
            bump: bumps.vendor,
        };
        Ok(())
    }
}

} // verus!
