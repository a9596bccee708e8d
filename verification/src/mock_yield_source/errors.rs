//! Failures of the yield engine.

use vstd::prelude::*;
use crate::token::TransferError;

verus! {

/// Why an operation of the yield engine was refused.
#[derive(Clone, Copy, Debug, PartialEq, Eq, Structural)]
pub enum MockYieldSourceError {
    /// The amount is not acceptable.
    InvalidAmount,
    /// The reserve holds less than the yield that is due.
    InsufficientFunds,
    /// The reserve is not the one that the accounts belong to.
    InvalidReserve,
    /// The caller is not the authority of the yield account.
    InvalidAuthority,
    /// The amount exceeds the principal.
    MathUnderflow,
    /// A counter of the yield account cannot hold the new value.
    MathOverflow,
    /// The clock reads a time before the last accrual.
    ClockRegression,
    /// A movement of funds was refused.
    Transfer(TransferError),
}

impl MockYieldSourceError {
    /// The message that goes with the failure.
    pub fn message(&self) -> (r: &'static str)
        ensures
            r@ == self.spec_message(),
    {
        match self {
            MockYieldSourceError::InvalidAmount => "Invalid amount",
            MockYieldSourceError::InsufficientFunds => "Insufficient funds",
            MockYieldSourceError::InvalidReserve => "Invalid reserve",
            MockYieldSourceError::InvalidAuthority => "Invalid authority",
            MockYieldSourceError::MathUnderflow => "Math underflow",
            MockYieldSourceError::MathOverflow => "Math overflow",
            MockYieldSourceError::ClockRegression => "Clock regression",
            MockYieldSourceError::Transfer(_) => "Transfer refused",
        }
    }

    pub open spec fn spec_message(&self) -> Seq<char> {
        match self {
            MockYieldSourceError::InvalidAmount => "Invalid amount"@,
            MockYieldSourceError::InsufficientFunds => "Insufficient funds"@,
            MockYieldSourceError::InvalidReserve => "Invalid reserve"@,
            MockYieldSourceError::InvalidAuthority => "Invalid authority"@,
            MockYieldSourceError::MathUnderflow => "Math underflow"@,
            MockYieldSourceError::MathOverflow => "Math overflow"@,
            MockYieldSourceError::ClockRegression => "Clock regression"@,
            MockYieldSourceError::Transfer(_) => "Transfer refused"@,
        }
    }
}

} // verus!
