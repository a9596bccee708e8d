//! Cancelling a subscription.

use vstd::prelude::*;
use crate::pubkey::Pubkey;
use crate::vaultpay::errors::VaultPayError;
use crate::vaultpay::states::{Subscription, SubscriptionStatus};

verus! {

/// The accounts of a cancellation by the subscriber.
#[derive(Clone, Copy, Debug, PartialEq, Eq)]
pub struct CancelSubscription {
    pub user: Pubkey,
    pub subscription: Subscription,
}

impl CancelSubscription {
    /// Cancels the subscription, which must be active. There is no way
    /// back: a cancelled subscription stays cancelled.
    pub fn cancel_subscription(&mut self) -> (r: Result<(), VaultPayError>)
        ensures
            r is Ok <==> old(self).subscription.status == SubscriptionStatus::Active,
            r is Ok ==> *final(self) == (CancelSubscription {
                subscription: Subscription {
                    status: SubscriptionStatus::Cancelled,
                    ..old(self).subscription
                },
                ..*old(self)
            }),
            r is Err ==> r == Err::<(), VaultPayError>(VaultPayError::SubscriptionNotActive)
                && *final(self) == *old(self),
            old(self).subscription.wf() ==> final(self).subscription.wf(),
    {
        if self.subscription.status != SubscriptionStatus::Active {
            return Err(VaultPayError::SubscriptionNotActive);
        }
        self.subscription.status = SubscriptionStatus::Cancelled;
        Ok(())
    }
}

} // verus!
