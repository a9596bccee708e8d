//! Subscription billing on top of a yield engine.
//!
//! Two ledgers cooperate. The yield engine (`mock_yield_source`) keeps
//! deposits, accrues interest on them and pays it out of a shared reserve.
//! The billing ledger (`vaultpay`) keeps users' funds inside the yield
//! engine and pulls recurring payments out of it on behalf of vendors.

pub mod mock_yield_source;
pub mod pubkey;
pub mod token;
pub mod vaultpay;
