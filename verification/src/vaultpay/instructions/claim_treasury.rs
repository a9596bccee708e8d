//! Claiming the fees that the treasury has collected.

use vstd::prelude::*;
use crate::pubkey::{
    find_config_address, is_derived, spec_config_address, spec_is_derived, Pubkey,
};
use crate::token::{spec_transfer, transfer, TokenAccount};
use crate::vaultpay::errors::VaultPayError;
use crate::vaultpay::states::Config;

verus! {

/// The accounts of a claim by the owner of the configuration.
#[derive(Clone, Copy, Debug, PartialEq, Eq)]
pub struct ClaimTreasury {
    pub owner: Pubkey,
    pub supported_token: Pubkey,
    pub config_key: Pubkey,
    pub config: Config,
    pub treasury_token_account: TokenAccount,
    pub owner_token_account: TokenAccount,
}

impl ClaimTreasury {
    /// The accounts after `amount` has moved from the treasury to the
    /// owner, or the reason why the claim is refused, given what the
    /// derivation of the configuration's address returned: the claimant is
    /// not the authority of the configuration, the configuration does not
    /// sit at its derived address with the derived bump, nothing is
    /// claimed, or more than the treasury holds.
    pub open spec fn spec_claim_as(self, derived: Option<(Pubkey, u8)>, amount: u64) -> Result<
        ClaimTreasury,
        VaultPayError,
    > {
        if self.config.authority != self.owner {
            Err(VaultPayError::InvalidVaultPayAuthority)
        } else if !spec_is_derived(derived, self.config_key, self.config.bump) {
            Err(VaultPayError::InvalidVaultPayAuthority)
        } else if amount == 0 || amount > self.treasury_token_account.amount {
            Err(VaultPayError::InsufficientFunds)
        } else {
            match spec_transfer(
                self.treasury_token_account,
                self.owner_token_account,
                amount,
                self.config_key,
            ) {
                Err(e) => Err(VaultPayError::Transfer(e)),
                Ok((treasury, owner_tokens)) => Ok(
                    ClaimTreasury {
                        treasury_token_account: treasury,
                        owner_token_account: owner_tokens,
                        ..self
                    },
                ),
            }
        }
    }

    /// The accounts after a claim of `amount`, or the reason why it is
    /// refused.
    pub open spec fn spec_claim_amount(self, amount: u64) -> Result<ClaimTreasury, VaultPayError> {
        self.spec_claim_as(spec_config_address(self.supported_token, self.owner), amount)
    }

    /// Moves `amount` from the treasury to the owner's balance, given in
    /// `derived` what the derivation of the configuration's address
    /// returned.
    pub fn claim_as(&mut self, derived: &Option<(Pubkey, u8)>, amount: u64) -> (r: Result<
        (),
        VaultPayError,
    >)
        ensures
            old(self).spec_claim_as(*derived, amount) == (match r {
                Ok(()) => Ok(*final(self)),
                Err(e) => Err(e),
            }),
            r is Err ==> *final(self) == *old(self),
            r is Ok ==> final(self).treasury_token_account.amount
                == old(self).treasury_token_account.amount - amount,
    {
        if self.config.authority != self.owner {
            return Err(VaultPayError::InvalidVaultPayAuthority);
        }
        if !is_derived(derived, &self.config_key, self.config.bump) {
            return Err(VaultPayError::InvalidVaultPayAuthority);
        }
        if amount == 0 || amount > self.treasury_token_account.amount {
            return Err(VaultPayError::InsufficientFunds);
        }
        let mut treasury: TokenAccount = self.treasury_token_account;
        let mut owner_tokens: TokenAccount = self.owner_token_account;
        match transfer(&mut treasury, &mut owner_tokens, amount, &self.config_key) {
            Err(e) => {
                return Err(VaultPayError::Transfer(e));
            },
            Ok(()) => {},
        }
        self.treasury_token_account = treasury;
        self.owner_token_account = owner_tokens;
        Ok(())
    }

    /// Moves `amount` from the treasury to the owner's balance, on the
    /// word of the configuration, whose address is derived again for it.
    /// A claim of nothing, or of more than the treasury holds, is refused
    /// with `InsufficientFunds`.
    pub fn claim_treasury_amount(&mut self, amount: u64) -> (r: Result<(), VaultPayError>)
        ensures
            old(self).spec_claim_amount(amount) == (match r {
                Ok(()) => Ok(*final(self)),
                Err(e) => Err(e),
            }),
            r is Err ==> *final(self) == *old(self),
            r is Ok ==> final(self).treasury_token_account.amount
                == old(self).treasury_token_account.amount - amount,
    {
        let derived = find_config_address(&self.supported_token, &self.owner);
        self.claim_as(&derived, amount)
    }

    /// Moves everything that the treasury holds to the owner's balance.
    /// An empty treasury is refused with `InsufficientFunds`.
    pub fn claim_treasury(&mut self) -> (r: Result<(), VaultPayError>)
        ensures
            old(self).spec_claim_amount(old(self).treasury_token_account.amount) == (match r {
                Ok(()) => Ok(*final(self)),
                Err(e) => Err(e),
            }),
            r is Err ==> *final(self) == *old(self),
            r is Ok ==> final(self).treasury_token_account.amount == 0,
    {
        let treasury_balance: u64 = self.treasury_token_account.amount;
        self.claim_treasury_amount(treasury_balance)
    }
}

} // verus!
