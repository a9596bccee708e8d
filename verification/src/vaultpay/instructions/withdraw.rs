//! Withdrawing a user's funds from the yield engine.
//!
//! `current_time` is the reading of the clock and `compounded` the growth
//! of the vault's principal since its last accrual, which the yield engine
//! takes as a number.

use vstd::prelude::*;
use crate::mock_yield_source::states::Vault;
use crate::pubkey::{is_address, spec_is_address, Pubkey};
use crate::token::{spec_transfer, transfer, TokenAccount};
use crate::vaultpay::errors::VaultPayError;
use crate::vaultpay::instructions::{
    find_delegated_addresses, spec_delegated_addresses, DelegatedAddresses,
};

verus! {

/// The accounts of a withdrawal by `user` through the delegated authority.
#[derive(Clone, Copy, Debug, PartialEq, Eq)]
pub struct Withdraw {
    pub user: Pubkey,
    pub token_mint: Pubkey,
    pub config_key: Pubkey,
    pub vaultpay_authority: Pubkey,
    pub user_token_account: TokenAccount,
    pub vaultpay_authority_ata: TokenAccount,
    pub vault: Vault,
}

impl Withdraw {
    /// The accounts after the withdrawal, or the reason why it is
    /// refused, given what the derivations for the user returned. The
    /// funds leave the vault, whose records must sit at their derived
    /// addresses, for the authority's balance and go from there to the
    /// user.
    pub open spec fn spec_withdraw_as(
        self,
        derived: DelegatedAddresses,
        amount: u64,
        current_time: i64,
        compounded: u64,
    ) -> Result<Withdraw, VaultPayError> {
        if !spec_is_address(derived.vaultpay_authority, self.vaultpay_authority) {
            Err(VaultPayError::InvalidVaultPayAuthority)
        } else {
            match self.vault.spec_withdraw_checked(
                derived.yield_reserve,
                derived.yield_account,
                self.vaultpay_authority_ata,
                self.vaultpay_authority,
                amount,
                current_time,
                compounded,
            ) {
                Err(e) => Err(VaultPayError::YieldSource(e)),
                Ok((vault, staged)) => match spec_transfer(
                    staged,
                    self.user_token_account,
                    amount,
                    self.vaultpay_authority,
                ) {
                    Err(e) => Err(VaultPayError::Transfer(e)),
                    Ok((ata, user_tokens)) => Ok(
                        Withdraw {
                            user_token_account: user_tokens,
                            vaultpay_authority_ata: ata,
                            vault,
                            ..self
                        },
                    ),
                },
            }
        }
    }

    /// The accounts after the withdrawal, or the reason why it is refused.
    pub open spec fn spec_withdraw(self, amount: u64, current_time: i64, compounded: u64) -> Result<
        Withdraw,
        VaultPayError,
    > {
        self.spec_withdraw_as(
            spec_delegated_addresses(
                self.config_key,
                self.user,
                self.token_mint,
                self.vault.yield_reserve_key,
                self.vaultpay_authority,
            ),
            amount,
            current_time,
            compounded,
        )
    }

    /// Withdraws `amount`, given in `derived` what the derivations for
    /// the user returned.
    pub fn withdraw_as(
        &mut self,
        derived: &DelegatedAddresses,
        amount: u64,
        current_time: i64,
        compounded: u64,
    ) -> (r: Result<(), VaultPayError>)
        ensures
            old(self).spec_withdraw_as(*derived, amount, current_time, compounded) == (match r {
                Ok(()) => Ok(*final(self)),
                Err(e) => Err(e),
            }),
            r is Err ==> *final(self) == *old(self),
    {
        if !is_address(&derived.vaultpay_authority, &self.vaultpay_authority) {
            return Err(VaultPayError::InvalidVaultPayAuthority);
        }
        let mut next: Withdraw = *self;
        let authority: Pubkey = self.vaultpay_authority;
        match next.vault.withdraw_checked(
            &derived.yield_reserve,
            &derived.yield_account,
            &mut next.vaultpay_authority_ata,
            &authority,
            amount,
            current_time,
            compounded,
        ) {
            Err(e) => {
                return Err(VaultPayError::YieldSource(e));
            },
            Ok(()) => {},
        }
        match transfer(
            &mut next.vaultpay_authority_ata,
            &mut next.user_token_account,
            amount,
            &authority,
        ) {
            Err(e) => {
                return Err(VaultPayError::Transfer(e));
            },
            Ok(()) => {},
        }
        *self = next;
        Ok(())
    }

    /// Withdraws `amount` from the vault that the delegated authority
    /// holds for the user, into the user's balance.
    pub fn withdraw(&mut self, amount: u64, current_time: i64, compounded: u64) -> (r: Result<
        (),
        VaultPayError,
    >)
        ensures
            old(self).spec_withdraw(amount, current_time, compounded) == (match r {
                Ok(()) => Ok(*final(self)),
                Err(e) => Err(e),
            }),
            r is Err ==> *final(self) == *old(self),
    {
        let derived = find_delegated_addresses(
            &self.config_key,
            &self.user,
            &self.token_mint,
            &self.vault.yield_reserve_key,
            &self.vaultpay_authority,
        );
        self.withdraw_as(&derived, amount, current_time, compounded)
    }
}

} // verus!
