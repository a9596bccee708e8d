//! Persistent records of the billing ledger.

use vstd::prelude::*;
use crate::pubkey::Pubkey;

verus! {

/// Basis points in one whole: a fee of this many takes everything.
pub const BPS_DENOMINATOR: u64 = 10_000;

/// Platform parameters of one asset and owner.
#[derive(Clone, Copy, Debug, PartialEq, Eq)]
pub struct Config {
    pub authority: Pubkey,
    pub seed: u64,
    /// Share of every payment that the platform keeps, in basis points.
    pub platform_fee: u16,
    pub min_subscription_duration: u64,
    pub max_subscription_duration: u64,
    pub supported_token: Pubkey,
    pub yield_source: Pubkey,
    pub treasury_wallet: Pubkey,
    pub locked: bool,
    pub bump: u8,
}

impl Config {
    /// Bytes that the record takes when stored.
    pub const INIT_SPACE: usize = 156;

    /// The fee is at most the whole.
    pub open spec fn wf(&self) -> bool {
        self.platform_fee <= BPS_DENOMINATOR
    }
}

/// A payee registered under a configuration.
#[derive(Clone, Copy, Debug, PartialEq, Eq)]
pub struct Vendor {
    pub authority: Pubkey,
    pub vendor_wallet: Pubkey,
    pub seed: u64,
    pub is_whitelisted: bool,
    pub bump: u8,
}

impl Vendor {
    /// Bytes that the record takes when stored.
    pub const LEN: usize = 74;
}

/// Where a subscription stands. It only ever leaves `Active`.
#[derive(Clone, Copy, Debug, PartialEq, Eq, Structural)]
pub enum SubscriptionStatus {
    Active,
    Cancelled,
    Completed,
}

/// An agreement of one user to pay one vendor a number of times.
#[derive(Clone, Copy, Debug, PartialEq, Eq)]
pub struct Subscription {
    pub user: Pubkey,
    pub vendor: Pubkey,
    pub seed: u64,
    pub start_time: i64,
    pub amount_per_payment: u64,
    pub number_of_payments: u8,
    pub payments_made: u8,
    pub status: SubscriptionStatus,
    pub locked: bool,
    pub bump: u8,
}

impl Subscription {
    /// Bytes that the record takes when stored.
    pub const LEN: usize = 93;

    /// No more payments are made than agreed; an active subscription has
    /// payments left and a completed one has none.
    pub open spec fn wf(&self) -> bool {
        &&& self.payments_made <= self.number_of_payments
        &&& self.status == SubscriptionStatus::Active ==> self.payments_made
            < self.number_of_payments
        &&& self.status == SubscriptionStatus::Completed ==> self.payments_made
            == self.number_of_payments
    }

    /// The subscription after one more payment, which completes it when
    /// it was the last.
    pub open spec fn spec_record_payment(self) -> Subscription {
        let made = (self.payments_made + 1) as u8;
        Subscription {
            payments_made: made,
            status: if made >= self.number_of_payments {
                SubscriptionStatus::Completed
            } else {
                self.status
            },
            ..self
        }
    }

    /// Counts one more payment and completes the subscription when it was
    /// the last one.
    pub fn record_payment(&mut self)
        requires
            old(self).payments_made < u8::MAX,
        ensures
            *final(self) == old(self).spec_record_payment(),
            old(self).wf() && old(self).status == SubscriptionStatus::Active ==> final(self).wf(),
    {
        self.payments_made = self.payments_made + 1;
        if self.payments_made >= self.number_of_payments {
            self.status = SubscriptionStatus::Completed;
        }
    }
}

} // verus!
