//! Operations of the yield engine: creating a reserve, opening a vault,
//! deposit and withdrawal. Each one either takes effect as a whole or
//! leaves every record and balance as it was.
//!
//! `current_time` is the reading of the clock and `compounded` the growth
//! of the principal since the last accrual, as `update_yield` takes them.

use vstd::prelude::*;
use crate::mock_yield_source::errors::MockYieldSourceError;
use crate::mock_yield_source::helper::update_yield;
use crate::mock_yield_source::states::{Vault, YieldAccount, YieldReserve};
use crate::pubkey::{is_derived, spec_is_derived, Pubkey};
use crate::token::{spec_transfer, transfer, TokenAccount};

verus! {

impl Vault {
    /// Why the vault is refused, if it is, given what the derivations of
    /// its reserve and of its yield account returned: each of the two
    /// records must sit at its derived address and hold the derived bump,
    /// since each signs for its custody balance with the bump it holds.
    pub open spec fn spec_address_error(
        self,
        derived_reserve: Option<(Pubkey, u8)>,
        derived_account: Option<(Pubkey, u8)>,
    ) -> Option<MockYieldSourceError> {
        if !spec_is_derived(derived_reserve, self.yield_reserve_key, self.yield_reserve.bump) {
            Some(MockYieldSourceError::InvalidReserve)
        } else if !spec_is_derived(
            derived_account,
            self.yield_account_key,
            self.yield_account.bump,
        ) {
            Some(MockYieldSourceError::InvalidAuthority)
        } else {
            None
        }
    }

    /// Checks that the records of the vault sit where the derivations say.
    pub fn check_addresses(
        &self,
        derived_reserve: &Option<(Pubkey, u8)>,
        derived_account: &Option<(Pubkey, u8)>,
    ) -> (r: Result<(), MockYieldSourceError>)
        ensures
            self.spec_address_error(*derived_reserve, *derived_account) == (match r {
                Ok(()) => None,
                Err(e) => Some(e),
            }),
    {
        if !is_derived(derived_reserve, &self.yield_reserve_key, self.yield_reserve.bump) {
            Err(MockYieldSourceError::InvalidReserve)
        } else if !is_derived(derived_account, &self.yield_account_key, self.yield_account.bump) {
            Err(MockYieldSourceError::InvalidAuthority)
        } else {
            Ok(())
        }
    }

    /// The vault and the depositor's balance after a deposit of `amount`,
    /// or the reason why the deposit is refused. Accrual comes first, then
    /// the funds move, then the principal grows.
    pub open spec fn spec_deposit(
        self,
        source: TokenAccount,
        depositor: Pubkey,
        amount: u64,
        current_time: i64,
        compounded: u64,
    ) -> Result<(Vault, TokenAccount), MockYieldSourceError> {
        match self.spec_update_yield(current_time, compounded) {
            Err(e) => Err(e),
            Ok(accrued) => match spec_transfer(
                source,
                accrued.yield_token_account,
                amount,
                depositor,
            ) {
                Err(e) => Err(MockYieldSourceError::Transfer(e)),
                Ok((source_after, custody)) => if accrued.yield_account.deposited_amount + amount
                    > u64::MAX {
                    Err(MockYieldSourceError::MathOverflow)
                } else {
                    Ok(
                        (
                            Vault {
                                yield_token_account: custody,
                                yield_account: YieldAccount {
                                    deposited_amount: (accrued.yield_account.deposited_amount
                                        + amount) as u64,
                                    ..accrued.yield_account
                                },
                                ..accrued
                            },
                            source_after,
                        ),
                    )
                },
            },
        }
    }

    /// The vault and the receiving balance after a withdrawal of `amount`
    /// by `authority`, or the reason why the withdrawal is refused. Accrual
    /// comes first, then the funds move, then the principal shrinks.
    pub open spec fn spec_withdraw(
        self,
        destination: TokenAccount,
        authority: Pubkey,
        amount: u64,
        current_time: i64,
        compounded: u64,
    ) -> Result<(Vault, TokenAccount), MockYieldSourceError> {
        if self.yield_account.owner != authority {
            Err(MockYieldSourceError::InvalidAuthority)
        } else {
            match self.spec_update_yield(current_time, compounded) {
                Err(e) => Err(e),
                Ok(accrued) => match spec_transfer(
                    accrued.yield_token_account,
                    destination,
                    amount,
                    accrued.yield_account_key,
                ) {
                    Err(e) => Err(MockYieldSourceError::Transfer(e)),
                    Ok((custody, destination_after)) => if amount
                        > accrued.yield_account.deposited_amount {
                        Err(MockYieldSourceError::MathUnderflow)
                    } else {
                        Ok(
                            (
                                Vault {
                                    yield_token_account: custody,
                                    yield_account: YieldAccount {
                                        deposited_amount: (accrued.yield_account.deposited_amount
                                            - amount) as u64,
                                        ..accrued.yield_account
                                    },
                                    ..accrued
                                },
                                destination_after,
                            ),
                        )
                    },
                },
            }
        }
    }

    /// What the engine answers to a deposit when it is entered from
    /// outside: the records must sit at their derived addresses, then the
    /// deposit is made.
    pub open spec fn spec_deposit_checked(
        self,
        derived_reserve: Option<(Pubkey, u8)>,
        derived_account: Option<(Pubkey, u8)>,
        source: TokenAccount,
        depositor: Pubkey,
        amount: u64,
        current_time: i64,
        compounded: u64,
    ) -> Result<(Vault, TokenAccount), MockYieldSourceError> {
        match self.spec_address_error(derived_reserve, derived_account) {
            Some(e) => Err(e),
            None => self.spec_deposit(source, depositor, amount, current_time, compounded),
        }
    }

    /// What the engine answers to a withdrawal when it is entered from
    /// outside: the records must sit at their derived addresses, then the
    /// withdrawal is made.
    pub open spec fn spec_withdraw_checked(
        self,
        derived_reserve: Option<(Pubkey, u8)>,
        derived_account: Option<(Pubkey, u8)>,
        destination: TokenAccount,
        authority: Pubkey,
        amount: u64,
        current_time: i64,
        compounded: u64,
    ) -> Result<(Vault, TokenAccount), MockYieldSourceError> {
        match self.spec_address_error(derived_reserve, derived_account) {
            Some(e) => Err(e),
            None => self.spec_withdraw(destination, authority, amount, current_time, compounded),
        }
    }

    /// Deposits into the vault after checking that its records sit where
    /// the derivations say.
    pub fn deposit_checked(
        &mut self,
        derived_reserve: &Option<(Pubkey, u8)>,
        derived_account: &Option<(Pubkey, u8)>,
        source: &mut TokenAccount,
        depositor: &Pubkey,
        amount: u64,
        current_time: i64,
        compounded: u64,
    ) -> (r: Result<(), MockYieldSourceError>)
        ensures
            old(self).spec_deposit_checked(
                *derived_reserve,
                *derived_account,
                *old(source),
                *depositor,
                amount,
                current_time,
                compounded,
            ) == (match r {
                Ok(()) => Ok((*final(self), *final(source))),
                Err(e) => Err(e),
            }),
            r is Err ==> *final(self) == *old(self) && *final(source) == *old(source),
    {
        match self.check_addresses(derived_reserve, derived_account) {
            Err(e) => Err(e),
            Ok(()) => self.deposit(source, depositor, amount, current_time, compounded),
        }
    }

    /// Withdraws from the vault after checking that its records sit where
    /// the derivations say.
    pub fn withdraw_checked(
        &mut self,
        derived_reserve: &Option<(Pubkey, u8)>,
        derived_account: &Option<(Pubkey, u8)>,
        destination: &mut TokenAccount,
        authority: &Pubkey,
        amount: u64,
        current_time: i64,
        compounded: u64,
    ) -> (r: Result<(), MockYieldSourceError>)
        ensures
            old(self).spec_withdraw_checked(
                *derived_reserve,
                *derived_account,
                *old(destination),
                *authority,
                amount,
                current_time,
                compounded,
            ) == (match r {
                Ok(()) => Ok((*final(self), *final(destination))),
                Err(e) => Err(e),
            }),
            r is Err ==> *final(self) == *old(self) && *final(destination) == *old(destination),
    {
        match self.check_addresses(derived_reserve, derived_account) {
            Err(e) => Err(e),
            Ok(()) => self.withdraw(destination, authority, amount, current_time, compounded),
        }
    }

    /// Deposits `amount` from `source`, which `depositor` controls, into
    /// the vault.
    pub fn deposit(
        &mut self,
        source: &mut TokenAccount,
        depositor: &Pubkey,
        amount: u64,
        current_time: i64,
        compounded: u64,
    ) -> (r: Result<(), MockYieldSourceError>)
        ensures
            old(self).spec_deposit(*old(source), *depositor, amount, current_time, compounded) == (
            match r {
                Ok(()) => Ok((*final(self), *final(source))),
                Err(e) => Err(e),
            }),
            r is Err ==> *final(self) == *old(self) && *final(source) == *old(source),
    {
        let mut next: Vault = *self;
        let mut source_after: TokenAccount = *source;
        match update_yield(&mut next, current_time, compounded) {
            Err(e) => {
                return Err(e);
            },
            Ok(()) => {},
        }
        match transfer(
            &mut source_after,
            &mut next.yield_token_account,
            amount,
            depositor,
        ) {
            Err(e) => {
                return Err(MockYieldSourceError::Transfer(e));
            },
            Ok(()) => {},
        }
        if amount > u64::MAX - next.yield_account.deposited_amount {
            return Err(MockYieldSourceError::MathOverflow);
        }
        next.yield_account.deposited_amount = next.yield_account.deposited_amount + amount;
        *self = next;
        *source = source_after;
        Ok(())
    }

    /// Withdraws `amount` from the vault into `destination`, on the word of
    /// `authority`.
    pub fn withdraw(
        &mut self,
        destination: &mut TokenAccount,
        authority: &Pubkey,
        amount: u64,
        current_time: i64,
        compounded: u64,
    ) -> (r: Result<(), MockYieldSourceError>)
        ensures
            old(self).spec_withdraw(*old(destination), *authority, amount, current_time, compounded)
                == (match r {
                Ok(()) => Ok((*final(self), *final(destination))),
                Err(e) => Err(e),
            }),
            r is Err ==> *final(self) == *old(self) && *final(destination) == *old(destination),
    {
        if self.yield_account.owner != *authority {
            return Err(MockYieldSourceError::InvalidAuthority);
        }
        let mut next: Vault = *self;
        let mut destination_after: TokenAccount = *destination;
        match update_yield(&mut next, current_time, compounded) {
            Err(e) => {
                return Err(e);
            },
            Ok(()) => {},
        }
        let custodian: Pubkey = next.yield_account_key;
        match transfer(
            &mut next.yield_token_account,
            &mut destination_after,
            amount,
            &custodian,
        ) {
            Err(e) => {
                return Err(MockYieldSourceError::Transfer(e));
            },
            Ok(()) => {},
        }
        if amount > next.yield_account.deposited_amount {
            return Err(MockYieldSourceError::MathUnderflow);
        }
        next.yield_account.deposited_amount = next.yield_account.deposited_amount - amount;
        *self = next;
        *destination = destination_after;
        Ok(())
    }
}

/// The bump found for the reserve that `Initialize` creates.
#[derive(Clone, Copy, Debug, PartialEq, Eq, Structural)]
pub struct InitializeBumps {
    pub yield_reserve: u8,
}

/// The accounts of the operation that creates a reserve.
#[derive(Clone, Copy, Debug, PartialEq, Eq)]
pub struct Initialize {
    pub authority: Pubkey,
    pub token_mint: Pubkey,
    pub authority_token_account: TokenAccount,
    pub yield_reserve_key: Pubkey,
    pub yield_reserve: YieldReserve,
    pub reserve_token_account: TokenAccount,
}

impl Initialize {
    /// The accounts after the reserve is created and funded, or the reason
    /// why it is not.
    pub open spec fn spec_init_yield_reserve(
        self,
        apy: u64,
        initial_deposit: u64,
        bumps: InitializeBumps,
    ) -> Result<Initialize, MockYieldSourceError> {
        match spec_transfer(
            self.authority_token_account,
            self.reserve_token_account,
            initial_deposit,
            self.authority,
        ) {
            Err(e) => Err(MockYieldSourceError::Transfer(e)),
            Ok((funding, reserve_tokens)) => Ok(
                Initialize {
                    authority_token_account: funding,
                    reserve_token_account: reserve_tokens,
                    yield_reserve: YieldReserve {
                        authority: self.authority,
                        token_mint: self.token_mint,
                        reserve_account: self.reserve_token_account.key,
                        apy,
                        bump: bumps.yield_reserve,
                    },
                    ..self
                },
            ),
        }
    }

    /// Creates the reserve of the asset with the given annual percentage
    /// yield (the bits of a double) and moves `initial_deposit` from the
    /// authority's balance into it.
    pub fn init_yield_reserve(
        &mut self,
        apy: u64,
        initial_deposit: u64,
        bumps: &InitializeBumps,
    ) -> (r: Result<(), MockYieldSourceError>)
        ensures
            old(self).spec_init_yield_reserve(apy, initial_deposit, *bumps) == (match r {
                Ok(()) => Ok(*final(self)),
                Err(e) => Err(e),
            }),
            r is Err ==> *final(self) == *old(self),
    {
        let mut funding: TokenAccount = self.authority_token_account;
        let mut reserve_tokens: TokenAccount = self.reserve_token_account;
        match transfer(
            &mut funding,
            &mut reserve_tokens,
            initial_deposit,
            &self.authority,
        ) {
            Err(e) => {
                return Err(MockYieldSourceError::Transfer(e));
            },
            Ok(()) => {},
        }
        self.yield_reserve = YieldReserve {
            authority: self.authority,
            token_mint: self.token_mint,
            reserve_account: self.reserve_token_account.key,
            apy,
            bump: bumps.yield_reserve,
        };
        self.authority_token_account = funding;
        self.reserve_token_account = reserve_tokens;
        Ok(())
    }
}

/// The bump found for the yield account that `OpenVault` creates.
#[derive(Clone, Copy, Debug, PartialEq, Eq, Structural)]
pub struct OpenVaultBumps {
    pub yield_account: u8,
}

/// The accounts of the operation that opens a vault in a reserve.
#[derive(Clone, Copy, Debug, PartialEq, Eq)]
pub struct OpenVault {
    pub user: Pubkey,
    pub token_mint: Pubkey,
    pub yield_reserve_key: Pubkey,
    pub yield_reserve: YieldReserve,
    pub yield_account_key: Pubkey,
    pub yield_account: YieldAccount,
    pub yield_token_account: TokenAccount,
}

impl OpenVault {
    /// The record of a vault that `authority` opens at `current_time`.
    pub open spec fn spec_opened(
        self,
        authority: Pubkey,
        bumps: OpenVaultBumps,
        current_time: i64,
    ) -> YieldAccount {
        YieldAccount {
            owner: authority,
            yield_reserve: self.yield_reserve_key,
            token_mint: self.token_mint,
            deposited_amount: 0,
            unclaimed_yield: 0,
            last_update: current_time,
            bump: bumps.yield_account,
        }
    }

    /// The accounts after the vault is opened. Nothing can go wrong.
    pub open spec fn spec_open_vault(
        self,
        authority: Pubkey,
        bumps: OpenVaultBumps,
        current_time: i64,
    ) -> Result<OpenVault, MockYieldSourceError> {
        Ok(OpenVault { yield_account: self.spec_opened(authority, bumps, current_time), ..self })
    }

    /// Opens a vault for `authority`, which need not be the signer: a
    /// program may open one for an address that it derives. Principal and
    /// yield start at zero and the time of the last accrual at `current_time`.
    pub fn open_vault(
        &mut self,
        authority: Pubkey,
        bumps: &OpenVaultBumps,
        current_time: i64,
    ) -> (r: Result<(), MockYieldSourceError>)
        ensures
            old(self).spec_open_vault(authority, *bumps, current_time) == (match r {
                Ok(()) => Ok(*final(self)),
                Err(e) => Err(e),
            }),
            r is Ok,
    {
        self.yield_account = YieldAccount {
            owner: authority,
            yield_reserve: self.yield_reserve_key,
            token_mint: self.token_mint,
            deposited_amount: 0,
            unclaimed_yield: 0,
            last_update: current_time,
            bump: bumps.yield_account,
        };
        Ok(())
    }
}

/// The accounts of a deposit by `user`.
#[derive(Clone, Copy, Debug, PartialEq, Eq)]
pub struct Deposit {
    pub user: Pubkey,
    pub token_mint: Pubkey,
    pub user_token_account: TokenAccount,
    pub vault: Vault,
}

impl Deposit {
    /// The accounts after the deposit, or the reason why it is refused.
    pub open spec fn spec_deposit(self, amount: u64, current_time: i64, compounded: u64) -> Result<
        Deposit,
        MockYieldSourceError,
    > {
        match self.vault.spec_deposit(
            self.user_token_account,
            self.user,
            amount,
            current_time,
            compounded,
        ) {
            Err(e) => Err(e),
            Ok((vault, source)) => Ok(Deposit { vault, user_token_account: source, ..self }),
        }
    }

    /// Accrues, moves `amount` from the user's balance into custody and
    /// adds it to the principal.
    pub fn deposit(&mut self, amount: u64, current_time: i64, compounded: u64) -> (r: Result<
        (),
        MockYieldSourceError,
    >)
        ensures
            old(self).spec_deposit(amount, current_time, compounded) == (match r {
                Ok(()) => Ok(*final(self)),
                Err(e) => Err(e),
            }),
            r is Err ==> *final(self) == *old(self),
    {
        let depositor: Pubkey = self.user;
        self.vault.deposit(
            &mut self.user_token_account,
            &depositor,
            amount,
            current_time,
            compounded,
        )
    }
}

/// The accounts of a withdrawal by `authority` into the balance of `user`.
#[derive(Clone, Copy, Debug, PartialEq, Eq)]
pub struct Withdraw {
    pub user: Pubkey,
    pub token_mint: Pubkey,
    pub authority: Pubkey,
    pub user_token_account: TokenAccount,
    pub vault: Vault,
}

impl Withdraw {
    /// The accounts after the withdrawal, or the reason why it is refused.
    pub open spec fn spec_withdraw(self, amount: u64, current_time: i64, compounded: u64) -> Result<
        Withdraw,
        MockYieldSourceError,
    > {
        match self.vault.spec_withdraw(
            self.user_token_account,
            self.authority,
            amount,
            current_time,
            compounded,
        ) {
            Err(e) => Err(e),
            Ok((vault, destination)) => Ok(
                Withdraw { vault, user_token_account: destination, ..self },
            ),
        }
    }

    /// Accrues, moves `amount` out of custody into the user's balance and
    /// takes it off the principal.
    pub fn withdraw(&mut self, amount: u64, current_time: i64, compounded: u64) -> (r: Result<
        (),
        MockYieldSourceError,
    >)
        ensures
            old(self).spec_withdraw(amount, current_time, compounded) == (match r {
                Ok(()) => Ok(*final(self)),
                Err(e) => Err(e),
            }),
            r is Err ==> *final(self) == *old(self),
    {
        let authority: Pubkey = self.authority;
        self.vault.withdraw(
            &mut self.user_token_account,
            &authority,
            amount,
            current_time,
            compounded,
        )
    }
}

/// A deposit followed by a withdrawal of the same amount, with no time
/// passing since the last accrual, gives back the vault as it was:
/// principal, unclaimed yield and every balance.
pub proof fn lemma_deposit_then_withdraw(
    vault: Vault,
    source: TokenAccount,
    depositor: Pubkey,
    destination: TokenAccount,
    authority: Pubkey,
    amount: u64,
    current_time: i64,
    first: u64,
    second: u64,
)
    requires
        vault.yield_account.last_update == current_time,
        vault.spec_deposit(source, depositor, amount, current_time, first) is Ok,
        vault.spec_deposit(source, depositor, amount, current_time, first)->Ok_0.0.spec_withdraw(
            destination,
            authority,
            amount,
            current_time,
            second,
        ) is Ok,
    ensures
        ({
            let deposited = vault.spec_deposit(
                source,
                depositor,
                amount,
                current_time,
                first,
            )->Ok_0.0;
            let withdrawn = deposited.spec_withdraw(
                destination,
                authority,
                amount,
                current_time,
                second,
            )->Ok_0.0;
            &&& deposited.yield_account.deposited_amount == vault.yield_account.deposited_amount
                + amount
            &&& withdrawn.yield_account.deposited_amount == vault.yield_account.deposited_amount
            &&& withdrawn.yield_account.unclaimed_yield == vault.yield_account.unclaimed_yield
            &&& withdrawn == vault
        }),
{
}

/// A withdrawal of more than the principal always fails, and with
/// `MathUnderflow` whenever the caller is the authority, accrual succeeds
/// and the custody balance can pay.
pub proof fn lemma_withdraw_underflow(
    vault: Vault,
    destination: TokenAccount,
    authority: Pubkey,
    amount: u64,
    current_time: i64,
    compounded: u64,
)
    requires
        amount > vault.yield_account.deposited_amount,
    ensures
        vault.spec_withdraw(destination, authority, amount, current_time, compounded) is Err,
        vault.yield_account.owner == authority && (vault.spec_update_yield(
            current_time,
            compounded,
        ) matches Ok(accrued) && spec_transfer(
            accrued.yield_token_account,
            destination,
            amount,
            accrued.yield_account_key,
        ) is Ok) ==> vault.spec_withdraw(destination, authority, amount, current_time, compounded)
            == Err::<(Vault, TokenAccount), MockYieldSourceError>(
            MockYieldSourceError::MathUnderflow,
        ),
{
}

/// What a deposit that succeeds does: the principal grows by the amount,
/// which leaves the depositor's balance for the custody balance, and the
/// reserve pays nothing but the accrued yield.
pub proof fn lemma_deposit_effect(
    vault: Vault,
    source: TokenAccount,
    depositor: Pubkey,
    amount: u64,
    current_time: i64,
    compounded: u64,
)
    requires
        vault.spec_deposit(source, depositor, amount, current_time, compounded) is Ok,
    ensures
        ({
            let (after, source_after) = vault.spec_deposit(
                source,
                depositor,
                amount,
                current_time,
                compounded,
            )->Ok_0;
            let new_yield = vault.spec_new_yield(current_time, compounded);
            &&& after.yield_account.deposited_amount == vault.yield_account.deposited_amount
                + amount
            &&& after.yield_account.unclaimed_yield == vault.yield_account.unclaimed_yield
                + new_yield
            &&& source_after.amount == source.amount - amount
            &&& after.yield_token_account.amount == vault.yield_token_account.amount + new_yield
                + amount
            &&& after.reserve_token_account.amount == vault.reserve_token_account.amount
                - new_yield
            &&& after.yield_account.last_update == current_time
            &&& current_time >= vault.yield_account.last_update
        }),
{
}

/// What a withdrawal that succeeds does: the principal shrinks by the
/// amount, which leaves the custody balance for the destination, and the
/// reserve pays nothing but the accrued yield.
pub proof fn lemma_withdraw_effect(
    vault: Vault,
    destination: TokenAccount,
    authority: Pubkey,
    amount: u64,
    current_time: i64,
    compounded: u64,
)
    requires
        vault.spec_withdraw(destination, authority, amount, current_time, compounded) is Ok,
    ensures
        ({
            let (after, destination_after) = vault.spec_withdraw(
                destination,
                authority,
                amount,
                current_time,
                compounded,
            )->Ok_0;
            let new_yield = vault.spec_new_yield(current_time, compounded);
            &&& amount <= vault.yield_account.deposited_amount
            &&& after.yield_account.deposited_amount == vault.yield_account.deposited_amount
                - amount
            &&& after.yield_account.unclaimed_yield == vault.yield_account.unclaimed_yield
                + new_yield
            &&& destination_after.amount == destination.amount + amount
            &&& after.yield_token_account.amount == vault.yield_token_account.amount + new_yield
                - amount
            &&& after.reserve_token_account.amount == vault.reserve_token_account.amount
                - new_yield
            &&& after.yield_account.last_update == current_time
            &&& current_time >= vault.yield_account.last_update
        }),
{
}

} // verus!
