//! Onboarding a user: funding the delegated authority and opening the
//! vault that it holds for the user.

use vstd::prelude::*;
use crate::mock_yield_source::instructions::{OpenVault, OpenVaultBumps};
use crate::mock_yield_source::states::{YieldAccount, YieldReserve};
use crate::pubkey::{is_address, spec_is_address, Pubkey};
use crate::token::TokenAccount;
use crate::vaultpay::errors::VaultPayError;
use crate::vaultpay::instructions::{
    find_delegated_addresses, spec_delegated_addresses, DelegatedAddresses,
};
use crate::vaultpay::states::Config;

verus! {

/// Base units of the native currency in one whole.
pub const LAMPORTS_PER_SOL: u64 = 1_000_000_000;

/// Below this native balance the delegated authority is topped up.
pub const MIN_AUTHORITY_BALANCE: u64 = LAMPORTS_PER_SOL / 100;

/// The native balance that a top-up brings the delegated authority to.
pub const TARGET_AUTHORITY_BALANCE: u64 = MIN_AUTHORITY_BALANCE * 3;

/// What the user pays to top up an authority that holds `current_balance`.
pub open spec fn spec_top_up(current_balance: u64) -> u64 {
    if current_balance < MIN_AUTHORITY_BALANCE {
        (TARGET_AUTHORITY_BALANCE - current_balance) as u64
    } else {
        0
    }
}

/// Computes what the user pays to top up the delegated authority: the
/// difference to the target balance when it holds less than the minimum,
/// else nothing.
pub fn top_up(current_balance: u64) -> (r: u64)
    ensures
        r == spec_top_up(current_balance),
        current_balance + r <= u64::MAX,
{
    if current_balance < MIN_AUTHORITY_BALANCE {
        TARGET_AUTHORITY_BALANCE - current_balance
    } else {
        0
    }
}

/// The accounts of the onboarding of `user`.
#[derive(Clone, Copy, Debug, PartialEq, Eq)]
pub struct InitUser {
    pub user: Pubkey,
    pub user_lamports: u64,
    pub token_mint: Pubkey,
    pub config_key: Pubkey,
    pub config: Config,
    pub vaultpay_authority: Pubkey,
    pub vaultpay_authority_lamports: u64,
    pub yield_reserve_key: Pubkey,
    pub yield_reserve: YieldReserve,
    pub yield_account_key: Pubkey,
    pub yield_account: YieldAccount,
    pub yield_token_account: TokenAccount,
}

impl InitUser {
    /// The accounts that the yield engine sees when the delegated
    /// authority opens its vault.
    pub open spec fn spec_open_vault_accounts(self) -> OpenVault {
        OpenVault {
            user: self.vaultpay_authority,
            token_mint: self.token_mint,
            yield_reserve_key: self.yield_reserve_key,
            yield_reserve: self.yield_reserve,
            yield_account_key: self.yield_account_key,
            yield_account: self.yield_account,
            yield_token_account: self.yield_token_account,
        }
    }

    /// The accounts after onboarding, or the reason why it is refused,
    /// given what the derivations for the user returned. The checks come
    /// in this order: the authority is the derived one, the user can pay
    /// the top-up, the yield account and the reserve are the derived ones,
    /// the yield engine opens the vault.
    pub open spec fn spec_init_user_with(
        self,
        derived: DelegatedAddresses,
        current_time: i64,
    ) -> Result<InitUser, VaultPayError> {
        let due = spec_top_up(self.vaultpay_authority_lamports);
        if !spec_is_address(derived.vaultpay_authority, self.vaultpay_authority) {
            Err(VaultPayError::InvalidVaultPayAuthority)
        } else if self.user_lamports < due {
            Err(VaultPayError::InsufficientFunds)
        } else if !spec_is_address(derived.yield_account, self.yield_account_key) {
            Err(VaultPayError::InvalidYieldAccount)
        } else if !spec_is_address(derived.yield_reserve, self.yield_reserve_key) {
            Err(VaultPayError::InvalidYieldReserve)
        } else {
            match self.spec_open_vault_accounts().spec_open_vault(
                self.vaultpay_authority,
                OpenVaultBumps { yield_account: derived.yield_account->Some_0.1 },
                current_time,
            ) {
                Err(e) => Err(VaultPayError::YieldSource(e)),
                Ok(opened) => Ok(
                    InitUser {
                        user_lamports: (self.user_lamports - due) as u64,
                        vaultpay_authority_lamports: (self.vaultpay_authority_lamports
                            + due) as u64,
                        yield_account: opened.yield_account,
                        ..self
                    },
                ),
            }
        }
    }

    /// The accounts after onboarding, or the reason why it is refused.
    pub open spec fn spec_init_user(self, current_time: i64) -> Result<InitUser, VaultPayError> {
        self.spec_init_user_with(
            spec_delegated_addresses(
                self.config_key,
                self.user,
                self.token_mint,
                self.yield_reserve_key,
                self.vaultpay_authority,
            ),
            current_time,
        )
    }

    /// Onboards the user, given in `derived` what the derivations for the
    /// user returned.
    pub fn init_user_with(&mut self, derived: &DelegatedAddresses, current_time: i64) -> (r: Result<
        (),
        VaultPayError,
    >)
        ensures
            old(self).spec_init_user_with(*derived, current_time) == (match r {
                Ok(()) => Ok(*final(self)),
                Err(e) => Err(e),
            }),
            r is Err ==> *final(self) == *old(self),
    {
        if !is_address(&derived.vaultpay_authority, &self.vaultpay_authority) {
            return Err(VaultPayError::InvalidVaultPayAuthority);
        }
        let due: u64 = top_up(self.vaultpay_authority_lamports);
        if self.user_lamports < due {
            return Err(VaultPayError::InsufficientFunds);
        }
        if !is_address(&derived.yield_account, &self.yield_account_key) {
            return Err(VaultPayError::InvalidYieldAccount);
        }
        if !is_address(&derived.yield_reserve, &self.yield_reserve_key) {
            return Err(VaultPayError::InvalidYieldReserve);
        }
        let bump: u8 = match derived.yield_account {
            Some((_, found)) => found,
            None => 0,
        };
        let mut accounts = OpenVault {
            user: self.vaultpay_authority,
            token_mint: self.token_mint,
            yield_reserve_key: self.yield_reserve_key,
            yield_reserve: self.yield_reserve,
            yield_account_key: self.yield_account_key,
            yield_account: self.yield_account,
            yield_token_account: self.yield_token_account,
        };
        match accounts.open_vault(
            self.vaultpay_authority,
            &OpenVaultBumps { yield_account: bump },
            current_time,
        ) {
            Err(e) => {
                return Err(VaultPayError::YieldSource(e));
            },
            Ok(()) => {},
        }
        self.user_lamports = self.user_lamports - due;
        self.vaultpay_authority_lamports = self.vaultpay_authority_lamports + due;
        self.yield_account = accounts.yield_account;
        Ok(())
    }

    /// Onboards the user: tops up the delegated authority so that it can
    /// pay for its accounts, checks that the yield account and the reserve
    /// are the ones derived for it, and opens its vault in the yield
    /// engine.
    pub fn init_user(&mut self, current_time: i64) -> (r: Result<(), VaultPayError>)
        ensures
            old(self).spec_init_user(current_time) == (match r {
                Ok(()) => Ok(*final(self)),
                Err(e) => Err(e),
            }),
            r is Err ==> *final(self) == *old(self),
    {
        let derived = find_delegated_addresses(
            &self.config_key,
            &self.user,
            &self.token_mint,
            &self.yield_reserve_key,
            &self.vaultpay_authority,
        );
        self.init_user_with(&derived, current_time)
    }
}

} // verus!
