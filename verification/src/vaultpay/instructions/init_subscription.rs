//! Opening a subscription.

use vstd::prelude::*;
use crate::pubkey::Pubkey;
use crate::vaultpay::errors::VaultPayError;
use crate::vaultpay::states::{Config, Subscription, SubscriptionStatus, Vendor};

verus! {

/// The bump found for the subscription that `InitSubscription` creates.
#[derive(Clone, Copy, Debug, PartialEq, Eq, Structural)]
pub struct InitSubscriptionBumps {
    pub subscription: u8,
}

/// The accounts of the operation that opens a subscription.
#[derive(Clone, Copy, Debug, PartialEq, Eq)]
pub struct InitSubscription {
    pub user: Pubkey,
    pub token_mint: Pubkey,
    pub config_key: Pubkey,
    pub config: Config,
    pub vendor_key: Pubkey,
    pub vendor: Vendor,
    pub subscription_key: Pubkey,
    pub subscription: Subscription,
}

impl InitSubscription {
    /// The subscription that `init_subscription` writes: active, with no
    /// payment made yet.
    pub open spec fn spec_subscription(
        self,
        seed: u64,
        amount_per_payment: u64,
        number_of_payments: u8,
        start_time: i64,
        bumps: InitSubscriptionBumps,
    ) -> Subscription {
        Subscription {
            user: self.user,
            vendor: self.vendor_key,
            seed,
            start_time,
            amount_per_payment,
            number_of_payments,
            payments_made: 0,
            status: SubscriptionStatus::Active,
            locked: false,
            bump: bumps.subscription,
        }
    }

    /// Opens a subscription of the user with the vendor. A subscription
    /// without any payment is refused with `InvalidAmount`: it could
    /// never complete.
    pub fn init_subscription(
        &mut self,
        seed: u64,
        amount_per_payment: u64,
        number_of_payments: u8,
        start_time: i64,
        bumps: &InitSubscriptionBumps,
    ) -> (r: Result<(), VaultPayError>)
        ensures
            r is Ok <==> number_of_payments > 0,
            r is Ok ==> *final(self) == (InitSubscription {
                subscription: old(self).spec_subscription(
                    seed,
                    amount_per_payment,
                    number_of_payments,
                    start_time,
                    *bumps,
                ),
                ..*old(self)
            }) && final(self).subscription.wf(),
            r is Err ==> r == Err::<(), VaultPayError>(VaultPayError::InvalidAmount) && *final(self)
                == *old(self),
    {
        if number_of_payments == 0 {
            return Err(VaultPayError::InvalidAmount);
        }
        self.subscription = Subscription {
            user: self.user,
            vendor: self.vendor_key,
            seed,
            start_time,
            amount_per_payment,
            number_of_payments,
            payments_made: 0,
            status: SubscriptionStatus::Active,
            locked: false,
            bump: bumps.subscription,
        };
        Ok(())
    }
}

} // verus!
