//! Depositing a user's funds into the yield engine.
//!
//! `current_time` is the reading of the clock and `compounded` the growth
//! of the vault's principal since its last accrual, which the yield engine
//! takes as a number.

use vstd::prelude::*;
use crate::mock_yield_source::states::Vault;
use crate::pubkey::{is_address, spec_is_address, Pubkey};
use crate::token::{spec_transfer, transfer, TokenAccount};
use crate::vaultpay::errors::VaultPayError;
use crate::vaultpay::instructions::{
    find_delegated_addresses, spec_delegated_addresses, DelegatedAddresses,
};

verus! {

/// The accounts of a deposit by `user` through the delegated authority.
#[derive(Clone, Copy, Debug, PartialEq, Eq)]
pub struct Deposit {
    pub user: Pubkey,
    pub token_mint: Pubkey,
    pub config_key: Pubkey,
    pub vaultpay_authority: Pubkey,
    pub user_token_account: TokenAccount,
    pub vaultpay_authority_ata: TokenAccount,
    pub vault: Vault,
}

impl Deposit {
    /// The accounts after the deposit, or the reason why it is refused,
    /// given what the derivations for the user returned. The
    /// funds go from the user to the authority's balance and from there
    /// into the vault, whose records must sit at their derived addresses.
    pub open spec fn spec_deposit_as(
        self,
        derived: DelegatedAddresses,
        amount: u64,
        current_time: i64,
        compounded: u64,
    ) -> Result<Deposit, VaultPayError> {
        if !spec_is_address(derived.vaultpay_authority, self.vaultpay_authority) {
            Err(VaultPayError::InvalidVaultPayAuthority)
        } else {
            match spec_transfer(
                self.user_token_account,
                self.vaultpay_authority_ata,
                amount,
                self.user,
            ) {
                Err(e) => Err(VaultPayError::Transfer(e)),
                Ok((user_tokens, staged)) => match self.vault.spec_deposit_checked(
                    derived.yield_reserve,
                    derived.yield_account,
                    staged,
                    self.vaultpay_authority,
                    amount,
                    current_time,
                    compounded,
                ) {
                    Err(e) => Err(VaultPayError::YieldSource(e)),
                    Ok((vault, ata)) => Ok(
                        Deposit {
                            user_token_account: user_tokens,
                            vaultpay_authority_ata: ata,
                            vault,
                            ..self
                        },
                    ),
                },
            }
        }
    }

    /// The accounts after the deposit, or the reason why it is refused.
    pub open spec fn spec_deposit(self, amount: u64, current_time: i64, compounded: u64) -> Result<
        Deposit,
        VaultPayError,
    > {
        self.spec_deposit_as(
            spec_delegated_addresses(
                self.config_key,
                self.user,
                self.token_mint,
                self.vault.yield_reserve_key,
                self.vaultpay_authority,
            ),
            amount,
            current_time,
            compounded,
        )
    }

    /// Deposits `amount`, given in `derived` what the derivations for
    /// the user returned.
    pub fn deposit_as(
        &mut self,
        derived: &DelegatedAddresses,
        amount: u64,
        current_time: i64,
        compounded: u64,
    ) -> (r: Result<(), VaultPayError>)
        ensures
            old(self).spec_deposit_as(*derived, amount, current_time, compounded) == (match r {
                Ok(()) => Ok(*final(self)),
                Err(e) => Err(e),
            }),
            r is Err ==> *final(self) == *old(self),
    {
        if !is_address(&derived.vaultpay_authority, &self.vaultpay_authority) {
            return Err(VaultPayError::InvalidVaultPayAuthority);
        }
        let mut next: Deposit = *self;
        let user: Pubkey = self.user;
        let authority: Pubkey = self.vaultpay_authority;
        match transfer(
            &mut next.user_token_account,
            &mut next.vaultpay_authority_ata,
            amount,
            &user,
        ) {
            Err(e) => {
                return Err(VaultPayError::Transfer(e));
            },
            Ok(()) => {},
        }
        match next.vault.deposit_checked(
            &derived.yield_reserve,
            &derived.yield_account,
            &mut next.vaultpay_authority_ata,
            &authority,
            amount,
            current_time,
            compounded,
        ) {
            Err(e) => {
                return Err(VaultPayError::YieldSource(e));
            },
            Ok(()) => {},
        }
        *self = next;
        Ok(())
    }

    /// Deposits `amount` of the user's funds into the vault that the
    /// delegated authority holds for the user.
    pub fn deposit(&mut self, amount: u64, current_time: i64, compounded: u64) -> (r: Result<
        (),
        VaultPayError,
    >)
        ensures
            old(self).spec_deposit(amount, current_time, compounded) == (match r {
                Ok(()) => Ok(*final(self)),
                Err(e) => Err(e),
            }),
            r is Err ==> *final(self) == *old(self),
    {
        let derived = find_delegated_addresses(
            &self.config_key,
            &self.user,
            &self.token_mint,
            &self.vault.yield_reserve_key,
            &self.vaultpay_authority,
        );
        self.deposit_as(&derived, amount, current_time, compounded)
    }
}

} // verus!
