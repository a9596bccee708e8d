//! Creating the configuration of the platform.

use vstd::prelude::*;
use crate::pubkey::Pubkey;
use crate::token::TokenAccount;
use crate::vaultpay::errors::VaultPayError;
use crate::vaultpay::states::{Config, BPS_DENOMINATOR};

verus! {

/// The bump found for the configuration that `Initialize` creates.
#[derive(Clone, Copy, Debug, PartialEq, Eq, Structural)]
pub struct InitializeBumps {
    pub config: u8,
}

/// The accounts of the operation that creates a configuration.
#[derive(Clone, Copy, Debug, PartialEq, Eq)]
pub struct Initialize {
    pub owner: Pubkey,
    pub supported_token: Pubkey,
    pub treasury: TokenAccount,
    pub config_key: Pubkey,
    pub config: Config,
    pub yield_program: Pubkey,
}

impl Initialize {
    /// The configuration that `init` writes.
    pub open spec fn spec_config(
        self,
        seed: u64,
        platform_fee: u16,
        min_subscription_duration: u64,
        max_subscription_duration: u64,
        bumps: InitializeBumps,
    ) -> Config {
        Config {
            authority: self.owner,
            seed,
            platform_fee,
            min_subscription_duration,
            max_subscription_duration,
            supported_token: self.supported_token,
            yield_source: self.yield_program,
            treasury_wallet: self.treasury.key,
            locked: false,
            bump: bumps.config,
        }
    }

    /// Creates the configuration with the given fee in basis points and
    /// binds the treasury to it. A fee above the whole is refused with
    /// `InvalidAmount`.
    pub fn init(
        &mut self,
        seed: u64,
        platform_fee: u16,
        min_subscription_duration: u64,
        max_subscription_duration: u64,
        bumps: &InitializeBumps,
    ) -> (r: Result<(), VaultPayError>)
        ensures
            r is Ok <==> platform_fee <= BPS_DENOMINATOR,
            r is Ok ==> *final(self) == (Initialize {
                config: old(self).spec_config(
                    seed,
                    platform_fee,
                    min_subscription_duration,
                    max_subscription_duration,
                    *bumps,
                ),
                ..*old(self)
            }) && final(self).config.wf(),
            r is Err ==> r == Err::<(), VaultPayError>(VaultPayError::InvalidAmount) && *final(self)
                == *old(self),
    {
        if platform_fee as u64 > BPS_DENOMINATOR {
            return Err(VaultPayError::InvalidAmount);
        }
        self.config = Config {
            authority: self.owner,
            seed,
            platform_fee,
            min_subscription_duration,
            max_subscription_duration,
            supported_token: self.supported_token,
            yield_source: self.yield_program,
            treasury_wallet: self.treasury.key,
            locked: false,
            bump: bumps.config,
        };
        Ok(())
    }
}

} // verus!
