//! The billing ledger: platform configuration, vendors, subscriptions and
//! the payments that are pulled out of the yield engine for them.
//!
//! The functions of this module are the entry points of the ledger. The
//! ones that create a record first derive its address, refuse accounts
//! that sit elsewhere, and store the bump of the derivation with the record.
//! The ones that move a user's funds derive the authority that acts for the
//! user, and the addresses of its vault, inside the operation.

use vstd::prelude::*;
use crate::pubkey::{
    bump_for, find_config_address, find_subscription_address, find_vendor_address, spec_bump_for,
    spec_config_address, spec_subscription_address, spec_vendor_address,
};
use crate::vaultpay::errors::VaultPayError;
use crate::vaultpay::instructions::cancel_subscription::CancelSubscription;
use crate::vaultpay::instructions::claim_treasury::ClaimTreasury;
use crate::vaultpay::instructions::deposit::Deposit;
use crate::vaultpay::instructions::init_subscription::{InitSubscription, InitSubscriptionBumps};
use crate::vaultpay::instructions::init_user::InitUser;
use crate::vaultpay::instructions::init_vendor::{InitVendor, InitVendorBumps};
use crate::vaultpay::instructions::initialize::{Initialize, InitializeBumps};
use crate::vaultpay::instructions::process_payment::ProcessPayment;
use crate::vaultpay::instructions::withdraw::Withdraw;
use crate::vaultpay::states::{Subscription, SubscriptionStatus, BPS_DENOMINATOR};

pub mod errors;
pub mod instructions;
pub mod states;

verus! {

/// The bump to store with the configuration, when it sits at the address
/// derived for the asset and the owner.
pub open spec fn spec_config_bump(ctx: Initialize) -> Option<u8> {
    spec_bump_for(spec_config_address(ctx.supported_token, ctx.owner), ctx.config_key)
}

/// Creates the configuration of the platform at its derived address. It
/// is refused with `InvalidVaultPayAuthority` when the configuration sits
/// elsewhere, and with `InvalidAmount` when the fee is above the whole.
pub fn initialize(
    ctx: &mut Initialize,
    seed: u64,
    platform_fee: u16,
    min_subscription_duration: u64,
    max_subscription_duration: u64,
) -> (r: Result<(), VaultPayError>)
    ensures
        r is Ok <==> spec_config_bump(*old(ctx)) is Some && platform_fee <= BPS_DENOMINATOR,
        r is Ok ==> *final(ctx) == (Initialize {
            config: old(ctx).spec_config(
                seed,
                platform_fee,
                min_subscription_duration,
                max_subscription_duration,
                InitializeBumps { config: spec_config_bump(*old(ctx))->Some_0 },
            ),
            ..*old(ctx)
        }) && final(ctx).config.wf(),
        r matches Err(e) ==> *final(ctx) == *old(ctx) && e == if spec_config_bump(*old(ctx))
            is None {
            VaultPayError::InvalidVaultPayAuthority
        } else {
            VaultPayError::InvalidAmount
        },
{
    let derived = find_config_address(&ctx.supported_token, &ctx.owner);
    match bump_for(&derived, &ctx.config_key) {
        None => Err(VaultPayError::InvalidVaultPayAuthority),
        Some(bump) => ctx.init(
            seed,
            platform_fee,
            min_subscription_duration,
            max_subscription_duration,
            &InitializeBumps { config: bump },
        ),
    }
}

/// Onboards a user.
pub fn init_user(ctx: &mut InitUser, current_time: i64) -> (r: Result<(), VaultPayError>)
    ensures
        old(ctx).spec_init_user(current_time) == (match r {
            Ok(()) => Ok(*final(ctx)),
            Err(e) => Err(e),
        }),
        r is Err ==> *final(ctx) == *old(ctx),
{
    ctx.init_user(current_time)
}

/// The bump to store with the vendor record, when it sits at the address
/// derived for the configuration and the signer.
pub open spec fn spec_vendor_bump(ctx: InitVendor) -> Option<u8> {
    spec_bump_for(spec_vendor_address(ctx.config_key, ctx.vendor_signer), ctx.vendor_key)
}

/// Registers a vendor at its derived address. It is refused with
/// `InvalidVendor` when the record sits elsewhere.
pub fn init_vendor(ctx: &mut InitVendor, seed: u64) -> (r: Result<(), VaultPayError>)
    ensures
        r is Ok <==> spec_vendor_bump(*old(ctx)) is Some,
        r is Ok ==> *final(ctx) == (InitVendor {
            vendor: old(ctx).spec_vendor(
                seed,
                InitVendorBumps { vendor: spec_vendor_bump(*old(ctx))->Some_0 },
            ),
            ..*old(ctx)
        }),
        r is Err ==> r == Err::<(), VaultPayError>(VaultPayError::InvalidVendor) && *final(ctx)
            == *old(ctx),
{
    let derived = find_vendor_address(&ctx.config_key, &ctx.vendor_signer);
    match bump_for(&derived, &ctx.vendor_key) {
        None => Err(VaultPayError::InvalidVendor),
        Some(bump) => ctx.init_vendor(seed, &InitVendorBumps { vendor: bump }),
    }
}

/// Deposits `amount` of the user's funds into the yield engine.
pub fn deposit(ctx: &mut Deposit, amount: u64, current_time: i64, compounded: u64) -> (r: Result<
    (),
    VaultPayError,
>)
    ensures
        old(ctx).spec_deposit(amount, current_time, compounded) == (match r {
            Ok(()) => Ok(*final(ctx)),
            Err(e) => Err(e),
        }),
        r is Err ==> *final(ctx) == *old(ctx),
{
    ctx.deposit(amount, current_time, compounded)
}

/// Withdraws `amount` of the user's funds from the yield engine.
pub fn withdraw(ctx: &mut Withdraw, amount: u64, current_time: i64, compounded: u64) -> (r: Result<
    (),
    VaultPayError,
>)
    ensures
        old(ctx).spec_withdraw(amount, current_time, compounded) == (match r {
            Ok(()) => Ok(*final(ctx)),
            Err(e) => Err(e),
        }),
        r is Err ==> *final(ctx) == *old(ctx),
{
    ctx.withdraw(amount, current_time, compounded)
}

/// The bump to store with the subscription, when it sits at the address
/// derived for the vendor and the user.
pub open spec fn spec_subscription_bump(ctx: InitSubscription) -> Option<u8> {
    spec_bump_for(spec_subscription_address(ctx.vendor_key, ctx.user), ctx.subscription_key)
}

/// Opens a subscription at its derived address. It is refused with
/// `InvalidVendor` when the record sits elsewhere, and with
/// `InvalidAmount` when it asks for no payment at all.
pub fn init_subscription(
    ctx: &mut InitSubscription,
    seed: u64,
    amount_per_payment: u64,
    number_of_payments: u8,
    start_time: i64,
) -> (r: Result<(), VaultPayError>)
    ensures
        r is Ok <==> spec_subscription_bump(*old(ctx)) is Some && number_of_payments > 0,
        r is Ok ==> *final(ctx) == (InitSubscription {
            subscription: old(ctx).spec_subscription(
                seed,
                amount_per_payment,
                number_of_payments,
                start_time,
                InitSubscriptionBumps { subscription: spec_subscription_bump(*old(ctx))->Some_0 },
            ),
            ..*old(ctx)
        }) && final(ctx).subscription.wf(),
        r matches Err(e) ==> *final(ctx) == *old(ctx) && e == if spec_subscription_bump(*old(ctx))
            is None {
            VaultPayError::InvalidVendor
        } else {
            VaultPayError::InvalidAmount
        },
{
    let derived = find_subscription_address(&ctx.vendor_key, &ctx.user);
    match bump_for(&derived, &ctx.subscription_key) {
        None => Err(VaultPayError::InvalidVendor),
        Some(bump) => ctx.init_subscription(
            seed,
            amount_per_payment,
            number_of_payments,
            start_time,
            &InitSubscriptionBumps { subscription: bump },
        ),
    }
}

/// Processes one payment of a subscription.
pub fn process_payment(ctx: &mut ProcessPayment, current_time: i64, compounded: u64) -> (r: Result<
    (),
    VaultPayError,
>)
    ensures
        old(ctx).spec_process_payment(current_time, compounded) == (match r {
            Ok(()) => Ok(*final(ctx)),
            Err(e) => Err(e),
        }),
        r is Err ==> *final(ctx) == *old(ctx),
        r is Ok && old(ctx).subscription.wf() ==> final(ctx).subscription.wf(),
{
    ctx.process_payment(current_time, compounded)
}

/// Cancels an active subscription.
pub fn cancel_subscription(ctx: &mut CancelSubscription) -> (r: Result<(), VaultPayError>)
    ensures
        r is Ok <==> old(ctx).subscription.status == SubscriptionStatus::Active,
        r is Ok ==> *final(ctx) == (CancelSubscription {
            subscription: Subscription {
                status: SubscriptionStatus::Cancelled,
                ..old(ctx).subscription
            },
            ..*old(ctx)
        }),
        r is Err ==> r == Err::<(), VaultPayError>(VaultPayError::SubscriptionNotActive)
            && *final(ctx) == *old(ctx),
{
    ctx.cancel_subscription()
}

/// Moves `amount` from the treasury to the owner of the configuration.
pub fn claim_treasury(ctx: &mut ClaimTreasury, amount: u64) -> (r: Result<(), VaultPayError>)
    ensures
        old(ctx).spec_claim_amount(amount) == (match r {
            Ok(()) => Ok(*final(ctx)),
            Err(e) => Err(e),
        }),
        r is Err ==> *final(ctx) == *old(ctx),
{
    ctx.claim_treasury_amount(amount)
}

} // verus!
