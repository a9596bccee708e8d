//! The accrual engine: brings the yield of an account up to date.
//!
//! Interest compounds: over `elapsed` seconds a principal grows by
//! `principal * ((1 + apy)^(elapsed / year) - 1)`, rounded down. That power
//! is a floating-point computation, which the caller evaluates and hands in
//! as `compounded`. Everything else is decided here: that no time or a zero
//! rate gives no yield, that the reserve can pay, and what changes.

use vstd::prelude::*;
use crate::mock_yield_source::errors::MockYieldSourceError;
use crate::mock_yield_source::states::{Vault, YieldAccount};
use crate::token::{spec_transfer, transfer, TokenAccount};

verus! {

/// Seconds in a year of 365 days.
pub const SECONDS_PER_YEAR: i64 = 31_536_000;

/// The yield that accrues over `elapsed` seconds: nothing when no time
/// has passed or the rate is zero, else the compounded growth.
pub open spec fn spec_accrued_yield(apy_is_zero: bool, elapsed: int, compounded: u64) -> u64 {
    if elapsed == 0 || apy_is_zero {
        0
    } else {
        compounded
    }
}

/// The yield that accrues between `last_update` and `current_time`.
pub fn accrued_yield(apy_is_zero: bool, last_update: i64, current_time: i64, compounded: u64) -> (r:
    u64)
    ensures
        r == spec_accrued_yield(apy_is_zero, current_time - last_update, compounded),
        current_time == last_update || apy_is_zero ==> r == 0,
{
    if current_time == last_update || apy_is_zero {
        0
    } else {
        compounded
    }
}

impl Vault {
    /// The yield that `update_yield` would pay at `current_time`.
    pub open spec fn spec_new_yield(self, current_time: i64, compounded: u64) -> u64 {
        spec_accrued_yield(
            self.yield_reserve.spec_apy_is_zero(),
            current_time - self.yield_account.last_update,
            compounded,
        )
    }

    /// The vault after accrual at `current_time`, or the reason why accrual
    /// is refused.
    pub open spec fn spec_update_yield(self, current_time: i64, compounded: u64) -> Result<
        Vault,
        MockYieldSourceError,
    > {
        let new_yield = self.spec_new_yield(current_time, compounded);
        if self.yield_account.yield_reserve != self.yield_reserve_key {
            Err(MockYieldSourceError::InvalidReserve)
        } else if current_time < self.yield_account.last_update {
            Err(MockYieldSourceError::ClockRegression)
        } else if self.reserve_token_account.amount < new_yield {
            Err(MockYieldSourceError::InsufficientFunds)
        } else {
            match spec_transfer(
                self.reserve_token_account,
                self.yield_token_account,
                new_yield,
                self.yield_reserve_key,
            ) {
                Err(e) => Err(MockYieldSourceError::Transfer(e)),
                Ok((reserve_tokens, yield_tokens)) => if self.yield_account.unclaimed_yield
                    + new_yield > u64::MAX {
                    Err(MockYieldSourceError::MathOverflow)
                } else {
                    Ok(
                        Vault {
                            reserve_token_account: reserve_tokens,
                            yield_token_account: yield_tokens,
                            yield_account: YieldAccount {
                                unclaimed_yield: (self.yield_account.unclaimed_yield
                                    + new_yield) as u64,
                                last_update: current_time,
                                ..self.yield_account
                            },
                            ..self
                        },
                    )
                },
            }
        }
    }
}

/// Brings the yield of `vault` up to `current_time`: pays the accrued yield
/// out of the reserve into the account's custody balance, adds it to the
/// unclaimed yield and stamps the time. `compounded` is the growth of the
/// principal over the elapsed time, `floor(principal * ((1 + apy)^(elapsed /
/// year) - 1))`. On any failure the vault is left as it was.
pub fn update_yield(vault: &mut Vault, current_time: i64, compounded: u64) -> (r: Result<
    (),
    MockYieldSourceError,
>)
    ensures
        old(vault).spec_update_yield(current_time, compounded) == (match r {
            Ok(()) => Ok(*final(vault)),
            Err(e) => Err(e),
        }),
        r is Err ==> *final(vault) == *old(vault),
        r is Ok ==> old(vault).reserve_token_account.amount >= old(vault).spec_new_yield(
            current_time,
            compounded,
        ),
{
    if vault.yield_account.yield_reserve != vault.yield_reserve_key {
        return Err(MockYieldSourceError::InvalidReserve);
    }
    if current_time < vault.yield_account.last_update {
        return Err(MockYieldSourceError::ClockRegression);
    }
    let new_yield: u64 = accrued_yield(
        vault.yield_reserve.apy_is_zero(),
        vault.yield_account.last_update,
        current_time,
        compounded,
    );
    if vault.reserve_token_account.amount < new_yield {
        return Err(MockYieldSourceError::InsufficientFunds);
    }
    let mut reserve_tokens: TokenAccount = vault.reserve_token_account;
    let mut yield_tokens: TokenAccount = vault.yield_token_account;
    match transfer(
        &mut reserve_tokens,
        &mut yield_tokens,
        new_yield,
        &vault.yield_reserve_key,
    ) {
        Err(e) => {
            return Err(MockYieldSourceError::Transfer(e));
        },
        Ok(()) => {},
    }
    if new_yield > u64::MAX - vault.yield_account.unclaimed_yield {
        return Err(MockYieldSourceError::MathOverflow);
    }
    vault.reserve_token_account = reserve_tokens;
    vault.yield_token_account = yield_tokens;
    vault.yield_account.unclaimed_yield = vault.yield_account.unclaimed_yield + new_yield;
    vault.yield_account.last_update = current_time;
    Ok(())
}

/// No time or no rate, no yield: accrual at the time of the last accrual,
/// or at a zero rate, pays nothing.
pub proof fn lemma_no_yield_without_time_or_rate(vault: Vault, current_time: i64, compounded: u64)
    requires
        current_time == vault.yield_account.last_update || vault.yield_reserve.spec_apy_is_zero(),
    ensures
        vault.spec_new_yield(current_time, compounded) == 0,
{
}

/// Accrual is idempotent: a second accrual at the same time pays nothing
/// and changes nothing.
pub proof fn lemma_update_yield_idempotent(
    vault: Vault,
    current_time: i64,
    first: u64,
    second: u64,
)
    requires
        vault.spec_update_yield(current_time, first) is Ok,
    ensures
        ({
            let accrued = vault.spec_update_yield(current_time, first)->Ok_0;
            &&& accrued.spec_new_yield(current_time, second) == 0
            &&& accrued.spec_update_yield(current_time, second) == Ok::<
                Vault,
                MockYieldSourceError,
            >(accrued)
        }),
{
}

/// The reserve stays solvent: accrual is refused when the reserve holds
/// less than the yield that is due, and when it succeeds the reserve pays
/// exactly that yield into the account's custody balance, which the
/// unclaimed yield grows by. Nothing else changes but the time stamp, which
/// never moves back.
pub proof fn lemma_update_yield_solvent(vault: Vault, current_time: i64, compounded: u64)
    ensures
        vault.reserve_token_account.amount < vault.spec_new_yield(current_time, compounded)
            ==> vault.spec_update_yield(current_time, compounded) is Err,
        vault.spec_update_yield(current_time, compounded) matches Ok(accrued) ==> {
            let new_yield = vault.spec_new_yield(current_time, compounded);
            &&& accrued.reserve_token_account.amount == vault.reserve_token_account.amount
                - new_yield
            &&& accrued.yield_token_account.amount == vault.yield_token_account.amount + new_yield
            &&& accrued.yield_account.unclaimed_yield == vault.yield_account.unclaimed_yield
                + new_yield
            &&& accrued.yield_account.deposited_amount == vault.yield_account.deposited_amount
            &&& accrued.yield_account.last_update == current_time
            &&& accrued.yield_account.last_update >= vault.yield_account.last_update
        },
{
}

} // verus!
