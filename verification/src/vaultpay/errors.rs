//! Failures of the billing ledger.

use vstd::prelude::*;
use crate::mock_yield_source::errors::MockYieldSourceError;
use crate::token::TransferError;

verus! {

/// Why an operation of the billing ledger was refused.
#[derive(Clone, Copy, Debug, PartialEq, Eq, Structural)]
pub enum VaultPayError {
    /// The subscription is not active.
    SubscriptionNotActive,
    /// The yield account is not the one derived for the user.
    InvalidYieldAccount,
    /// The reserve is not the one derived for the asset.
    InvalidYieldReserve,
    /// The vendor is not the one that the subscription names.
    InvalidVendor,
    /// The fee exceeds the payment.
    MathUnderflow,
    /// A product or a counter does not fit.
    MathOverflow,
    /// The authority is not the one derived for the user or the record.
    InvalidVaultPayAuthority,
    /// The balance holds less than is asked for.
    InsufficientFunds,
    /// A fee above the whole, or a subscription without payments.
    InvalidAmount,
    /// The yield engine refused its part.
    YieldSource(MockYieldSourceError),
    /// A movement of funds was refused.
    Transfer(TransferError),
}

impl VaultPayError {
    /// The message that goes with the failure.
    pub fn message(&self) -> (r: &'static str)
        ensures
            r@ == self.spec_message(),
    {
        match self {
            VaultPayError::SubscriptionNotActive => "The subscription is not active.",
            VaultPayError::InvalidYieldAccount => "Invalid Yield Account",
            VaultPayError::InvalidYieldReserve => "Invalid Yield Reserve",
            VaultPayError::InvalidVendor => "Invalid Vendor",
            VaultPayError::MathUnderflow => "Math Underflow",
            VaultPayError::MathOverflow => "Math Overflow",
            VaultPayError::InvalidVaultPayAuthority => "Invalid Vault Pay Authority",
            VaultPayError::InsufficientFunds => "Insufficient Funds",
            VaultPayError::InvalidAmount => "Invalid Amount",
            VaultPayError::YieldSource(e) => e.message(),
            VaultPayError::Transfer(_) => "Transfer refused",
        }
    }

    pub open spec fn spec_message(&self) -> Seq<char> {
        match self {
            VaultPayError::SubscriptionNotActive => "The subscription is not active."@,
            VaultPayError::InvalidYieldAccount => "Invalid Yield Account"@,
            VaultPayError::InvalidYieldReserve => "Invalid Yield Reserve"@,
            VaultPayError::InvalidVendor => "Invalid Vendor"@,
            VaultPayError::MathUnderflow => "Math Underflow"@,
            VaultPayError::MathOverflow => "Math Overflow"@,
            VaultPayError::InvalidVaultPayAuthority => "Invalid Vault Pay Authority"@,
            VaultPayError::InsufficientFunds => "Insufficient Funds"@,
            VaultPayError::InvalidAmount => "Invalid Amount"@,
            VaultPayError::YieldSource(e) => e.spec_message(),
            VaultPayError::Transfer(_) => "Transfer refused"@,
        }
    }
}

} // verus!
