//! The payment orchestrator: pulls one payment of a subscription out of
//! the user's vault and splits it between the vendor and the treasury.
//!
//! `current_time` is the reading of the clock and `compounded` the growth
//! of the vault's principal since its last accrual, which the yield engine
//! takes as a number.

use vstd::prelude::*;
use crate::mock_yield_source::states::Vault;
use crate::pubkey::{is_address, spec_is_address, Pubkey};
use crate::token::{spec_transfer, transfer, TokenAccount};
use crate::vaultpay::errors::VaultPayError;
use crate::vaultpay::instructions::{
    find_delegated_addresses, spec_delegated_addresses, DelegatedAddresses,
};
use crate::vaultpay::states::{Config, Subscription, SubscriptionStatus, Vendor, BPS_DENOMINATOR};

verus! {

/// The platform's share of `amount` at `fee_bps` basis points, rounded
/// down.
pub open spec fn spec_platform_fee(amount: u64, fee_bps: u16) -> int {
    (amount * fee_bps) / 10_000
}

/// The fee and the vendor's part of a payment, or the reason why it
/// cannot be split: the product of amount and fee does not fit in 64 bits,
/// or the fee exceeds the amount.
pub open spec fn spec_split_payment(amount: u64, fee_bps: u16) -> Result<
    (u64, u64),
    VaultPayError,
> {
    if amount * fee_bps > u64::MAX {
        Err(VaultPayError::MathOverflow)
    } else if spec_platform_fee(amount, fee_bps) > amount {
        Err(VaultPayError::MathUnderflow)
    } else {
        Ok(
            (
                spec_platform_fee(amount, fee_bps) as u64,
                (amount - spec_platform_fee(amount, fee_bps)) as u64,
            ),
        )
    }
}

/// Splits a payment of `amount` into the platform fee at `fee_bps` basis
/// points and the vendor's part. The two parts add up to `amount`.
pub fn split_payment(amount: u64, fee_bps: u16) -> (r: Result<(u64, u64), VaultPayError>)
    ensures
        r == spec_split_payment(amount, fee_bps),
        r matches Ok((fee, to_vendor)) ==> fee + to_vendor == amount,
        fee_bps <= BPS_DENOMINATOR && amount * fee_bps <= u64::MAX ==> r is Ok,
{
    let bps: u64 = fee_bps.into();
    let product: u64 = match amount.checked_mul(bps) {
        Some(p) => p,
        None => {
            return Err(VaultPayError::MathOverflow);
        },
    };
    let platform_fee: u64 = product / BPS_DENOMINATOR;
    proof {
        lemma_fee_within_amount(amount, fee_bps);
    }
    match amount.checked_sub(platform_fee) {
        Some(amount_to_vendor) => Ok((platform_fee, amount_to_vendor)),
        None => Err(VaultPayError::MathUnderflow),
    }
}

/// A fee of at most the whole never exceeds the payment.
pub proof fn lemma_fee_within_amount(amount: u64, fee_bps: u16)
    ensures
        0 <= spec_platform_fee(amount, fee_bps),
        fee_bps <= 10_000 ==> spec_platform_fee(amount, fee_bps) <= amount,
        fee_bps == 0 ==> spec_platform_fee(amount, fee_bps) == 0,
        fee_bps == 10_000 ==> spec_platform_fee(amount, fee_bps) == amount,
{
    let a = amount as int;
    let f = fee_bps as int;
    assert(0 <= a * f) by (nonlinear_arith)
        requires
            0 <= a,
            0 <= f,
    ;
    if fee_bps <= 10_000 {
        assert(a * f <= a * 10_000) by (nonlinear_arith)
            requires
                0 <= a,
                0 <= f <= 10_000,
        ;
    }
    if fee_bps == 0 {
        assert(a * f == 0) by (nonlinear_arith)
            requires
                f == 0,
        ;
    }
}

/// The accounts of one payment of a subscription.
#[derive(Clone, Copy, Debug, PartialEq, Eq)]
pub struct ProcessPayment {
    pub vendor_signer: Pubkey,
    pub token_mint: Pubkey,
    pub config_key: Pubkey,
    pub config: Config,
    pub vaultpay_authority: Pubkey,
    pub subscription: Subscription,
    pub vendor_key: Pubkey,
    pub vendor: Vendor,
    pub vendor_token_account: TokenAccount,
    pub vaultpay_authority_ata: TokenAccount,
    pub treasury_token_account: TokenAccount,
    pub vault: Vault,
}

impl ProcessPayment {
    /// The accounts after the funds of one payment have moved: out of the
    /// vault, whose records must sit at their derived addresses, into the
    /// authority's balance, and from there to the vendor and to the
    /// treasury.
    pub open spec fn spec_move_funds(
        self,
        derived: DelegatedAddresses,
        platform_fee: u64,
        amount_to_vendor: u64,
        current_time: i64,
        compounded: u64,
    ) -> Result<ProcessPayment, VaultPayError> {
        match self.vault.spec_withdraw_checked(
            derived.yield_reserve,
            derived.yield_account,
            self.vaultpay_authority_ata,
            self.vaultpay_authority,
            self.subscription.amount_per_payment,
            current_time,
            compounded,
        ) {
            Err(e) => Err(VaultPayError::YieldSource(e)),
            Ok((vault, funded)) => match spec_transfer(
                funded,
                self.vendor_token_account,
                amount_to_vendor,
                self.vaultpay_authority,
            ) {
                Err(e) => Err(VaultPayError::Transfer(e)),
                Ok((after_vendor, vendor_tokens)) => match spec_transfer(
                    after_vendor,
                    self.treasury_token_account,
                    platform_fee,
                    self.vaultpay_authority,
                ) {
                    Err(e) => Err(VaultPayError::Transfer(e)),
                    Ok((after_fee, treasury_tokens)) => Ok(
                        ProcessPayment {
                            vault,
                            vaultpay_authority_ata: after_fee,
                            vendor_token_account: vendor_tokens,
                            treasury_token_account: treasury_tokens,
                            ..self
                        },
                    ),
                },
            },
        }
    }

    /// The accounts after one payment, or the reason why it is refused,
    /// given what the derivations for the user returned. The checks come
    /// in this order: the subscription is active, the vendor is the one it
    /// names, the payment can be split, the authority is the derived one,
    /// the funds can move, the counter can grow.
    pub open spec fn spec_process_payment_as(
        self,
        derived: DelegatedAddresses,
        current_time: i64,
        compounded: u64,
    ) -> Result<ProcessPayment, VaultPayError> {
        if self.subscription.status != SubscriptionStatus::Active {
            Err(VaultPayError::SubscriptionNotActive)
        } else if self.subscription.vendor != self.vendor_key {
            Err(VaultPayError::InvalidVendor)
        } else {
            match spec_split_payment(
                self.subscription.amount_per_payment,
                self.config.platform_fee,
            ) {
                Err(e) => Err(e),
                Ok((platform_fee, amount_to_vendor)) => if !spec_is_address(
                    derived.vaultpay_authority,
                    self.vaultpay_authority,
                ) {
                    Err(VaultPayError::InvalidVaultPayAuthority)
                } else {
                    match self.spec_move_funds(
                        derived,
                        platform_fee,
                        amount_to_vendor,
                        current_time,
                        compounded,
                    ) {
                        Err(e) => Err(e),
                        Ok(moved) => if self.subscription.payments_made == u8::MAX {
                            Err(VaultPayError::MathOverflow)
                        } else {
                            Ok(
                                ProcessPayment {
                                    subscription: self.subscription.spec_record_payment(),
                                    ..moved
                                },
                            )
                        },
                    }
                },
            }
        }
    }

    /// The accounts after one payment, or the reason why it is refused.
    pub open spec fn spec_process_payment(self, current_time: i64, compounded: u64) -> Result<
        ProcessPayment,
        VaultPayError,
    > {
        self.spec_process_payment_as(
            spec_delegated_addresses(
                self.config_key,
                self.subscription.user,
                self.token_mint,
                self.vault.yield_reserve_key,
                self.vaultpay_authority,
            ),
            current_time,
            compounded,
        )
    }

    /// Processes one payment, given in `derived` what the derivations for
    /// the user returned.
    pub fn process_payment_as(
        &mut self,
        derived: &DelegatedAddresses,
        current_time: i64,
        compounded: u64,
    ) -> (r: Result<(), VaultPayError>)
        ensures
            old(self).spec_process_payment_as(*derived, current_time, compounded) == (match r {
                Ok(()) => Ok(*final(self)),
                Err(e) => Err(e),
            }),
            r is Err ==> *final(self) == *old(self),
            r is Ok && old(self).subscription.wf() ==> final(self).subscription.wf(),
    {
        if self.subscription.status != SubscriptionStatus::Active {
            return Err(VaultPayError::SubscriptionNotActive);
        }
        if self.subscription.vendor != self.vendor_key {
            return Err(VaultPayError::InvalidVendor);
        }
        let (platform_fee, amount_to_vendor): (u64, u64) = match split_payment(
            self.subscription.amount_per_payment,
            self.config.platform_fee,
        ) {
            Ok(parts) => parts,
            Err(e) => {
                return Err(e);
            },
        };
        if !is_address(&derived.vaultpay_authority, &self.vaultpay_authority) {
            return Err(VaultPayError::InvalidVaultPayAuthority);
        }
        let mut next: ProcessPayment = *self;
        let authority: Pubkey = self.vaultpay_authority;
        match next.vault.withdraw_checked(
            &derived.yield_reserve,
            &derived.yield_account,
            &mut next.vaultpay_authority_ata,
            &authority,
            self.subscription.amount_per_payment,
            current_time,
            compounded,
        ) {
            Err(e) => {
                return Err(VaultPayError::YieldSource(e));
            },
            Ok(()) => {},
        }
        match transfer(
            &mut next.vaultpay_authority_ata,
            &mut next.vendor_token_account,
            amount_to_vendor,
            &authority,
        ) {
            Err(e) => {
                return Err(VaultPayError::Transfer(e));
            },
            Ok(()) => {},
        }
        match transfer(
            &mut next.vaultpay_authority_ata,
            &mut next.treasury_token_account,
            platform_fee,
            &authority,
        ) {
            Err(e) => {
                return Err(VaultPayError::Transfer(e));
            },
            Ok(()) => {},
        }
        if next.subscription.payments_made == u8::MAX {
            return Err(VaultPayError::MathOverflow);
        }
        next.subscription.record_payment();
        *self = next;
        Ok(())
    }

    /// Processes one payment of the subscription: derives the authority
    /// that acts for the user, withdraws the amount from the user's vault
    /// as that authority, pays the vendor and the treasury and counts the
    /// payment.
    pub fn process_payment(&mut self, current_time: i64, compounded: u64) -> (r: Result<
        (),
        VaultPayError,
    >)
        ensures
            old(self).spec_process_payment(current_time, compounded) == (match r {
                Ok(()) => Ok(*final(self)),
                Err(e) => Err(e),
            }),
            r is Err ==> *final(self) == *old(self),
            r is Ok && old(self).subscription.wf() ==> final(self).subscription.wf(),
    {
        let derived = find_delegated_addresses(
            &self.config_key,
            &self.subscription.user,
            &self.token_mint,
            &self.vault.yield_reserve_key,
            &self.vaultpay_authority,
        );
        self.process_payment_as(&derived, current_time, compounded)
    }
}

/// The split is exact: whenever a payment can be split, and it always can
/// when the fee is at most the whole and the product fits in 64 bits, the
/// fee and the vendor's part add up to the payment.
pub proof fn lemma_split_payment_exact(amount: u64, fee_bps: u16)
    ensures
        spec_split_payment(amount, fee_bps) matches Ok((fee, to_vendor)) ==> fee + to_vendor
            == amount && fee == spec_platform_fee(amount, fee_bps),
        fee_bps <= BPS_DENOMINATOR && amount * fee_bps <= u64::MAX ==> spec_split_payment(
            amount,
            fee_bps,
        ) is Ok,
{
    lemma_fee_within_amount(amount, fee_bps);
}

/// Whether `after` is `before` with one more payment made.
pub open spec fn spec_paid(before: Subscription, after: Subscription) -> bool {
    &&& before.status == SubscriptionStatus::Active
    &&& before.payments_made < u8::MAX
    &&& after == before.spec_record_payment()
}

/// A payment that succeeds counts once on an active subscription and
/// moves exact amounts: the vendor receives its part, the treasury the fee,
/// the authority's balance ends where it began, and the vault's two
/// balances together lose the payment and nothing else.
pub proof fn lemma_payment_effect(
    accounts: ProcessPayment,
    derived: DelegatedAddresses,
    current_time: i64,
    compounded: u64,
)
    requires
        accounts.spec_process_payment_as(derived, current_time, compounded) is Ok,
    ensures
        ({
            let after = accounts.spec_process_payment_as(derived, current_time, compounded)->Ok_0;
            let (fee, to_vendor) = spec_split_payment(
                accounts.subscription.amount_per_payment,
                accounts.config.platform_fee,
            )->Ok_0;
            &&& spec_paid(accounts.subscription, after.subscription)
            &&& spec_is_address(derived.vaultpay_authority, accounts.vaultpay_authority)
            &&& fee + to_vendor == accounts.subscription.amount_per_payment
            &&& after.vendor_token_account.amount == accounts.vendor_token_account.amount
                + to_vendor
            &&& after.treasury_token_account.amount == accounts.treasury_token_account.amount
                + fee
            &&& after.vaultpay_authority_ata.amount == accounts.vaultpay_authority_ata.amount
            &&& after.vault.yield_account.deposited_amount
                == accounts.vault.yield_account.deposited_amount
                - accounts.subscription.amount_per_payment
            &&& after.vault.yield_token_account.amount + after.vault.reserve_token_account.amount
                + accounts.subscription.amount_per_payment
                == accounts.vault.yield_token_account.amount
                + accounts.vault.reserve_token_account.amount
        }),
{
    lemma_split_payment_exact(
        accounts.subscription.amount_per_payment,
        accounts.config.platform_fee,
    );
}

/// A subscription that is not active takes no payment.
pub proof fn lemma_inactive_refuses_payment(
    accounts: ProcessPayment,
    derived: DelegatedAddresses,
    current_time: i64,
    compounded: u64,
)
    requires
        accounts.subscription.status != SubscriptionStatus::Active,
    ensures
        accounts.spec_process_payment_as(derived, current_time, compounded) == Err::<
            ProcessPayment,
            VaultPayError,
        >(VaultPayError::SubscriptionNotActive),
{
}

/// A new subscription completes with its last payment and not before:
/// along any run of payments from a subscription with none made, the
/// `i`-th state has `i` payments made and is completed exactly when `i` is
/// the agreed number, so that no run is longer than that.
pub proof fn lemma_completes_after_all_payments(history: Seq<Subscription>)
    requires
        history.len() >= 1,
        history[0].wf(),
        history[0].status == SubscriptionStatus::Active,
        history[0].payments_made == 0,
        forall|i: int|
            0 <= i < history.len() - 1 ==> spec_paid(#[trigger] history[i], history[i + 1]),
    ensures
        history.len() - 1 <= history[0].number_of_payments,
        forall|i: int|
            0 <= i < history.len() ==> {
                &&& (#[trigger] history[i]).wf()
                &&& history[i].payments_made == i
                &&& history[i].number_of_payments == history[0].number_of_payments
                &&& history[i].status == if i == history[0].number_of_payments {
                    SubscriptionStatus::Completed
                } else {
                    SubscriptionStatus::Active
                }
            },
    decreases history.len(),
{
    if history.len() > 1 {
        let shorter = history.drop_last();
        assert forall|i: int| 0 <= i < shorter.len() - 1 implies spec_paid(
            #[trigger] shorter[i],
            shorter[i + 1],
        ) by {
            assert(spec_paid(history[i], history[i + 1]));
        }
        lemma_completes_after_all_payments(shorter);
        let last = history.len() - 1;
        assert(shorter[last - 1] == history[last - 1]);
        assert(spec_paid(history[last - 1], history[last]));
        assert forall|i: int| 0 <= i < history.len() implies {
            &&& (#[trigger] history[i]).wf()
            &&& history[i].payments_made == i
            &&& history[i].number_of_payments == history[0].number_of_payments
            &&& history[i].status == if i == history[0].number_of_payments {
                SubscriptionStatus::Completed
            } else {
                SubscriptionStatus::Active
            }
        } by {
            if i < last {
                assert(shorter[i] == history[i]);
            }
        }
    }
}

} // verus!
