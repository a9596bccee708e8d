//! Persistent records of the yield engine.

use vstd::prelude::*;
use crate::pubkey::Pubkey;
use crate::token::TokenAccount;

verus! {

/// The shared pool of one asset that funds yield payouts.
#[derive(Clone, Copy, Debug, PartialEq, Eq)]
pub struct YieldReserve {
    pub authority: Pubkey,
    pub token_mint: Pubkey,
    pub reserve_account: Pubkey,
    /// Annual percentage yield as a fraction (`0.05` is five percent), held
    /// as the bits of its IEEE 754 double-precision encoding.
    pub apy: u64,
    pub bump: u8,
}

impl YieldReserve {
    /// Bytes that the record takes when stored.
    pub const LEN: usize = 105;

    /// Whether the annual percentage yield is zero (either sign of zero).
    pub open spec fn spec_apy_is_zero(&self) -> bool {
        self.apy == 0 || self.apy == 0x8000_0000_0000_0000
    }

    /// Tells whether the annual percentage yield is zero.
    pub fn apy_is_zero(&self) -> (r: bool)
        ensures
            r == self.spec_apy_is_zero(),
    {
        self.apy == 0 || self.apy == 0x8000_0000_0000_0000
    }
}

/// What one depositor holds in a reserve.
#[derive(Clone, Copy, Debug, PartialEq, Eq)]
pub struct YieldAccount {
    pub owner: Pubkey,
    pub yield_reserve: Pubkey,
    pub token_mint: Pubkey,
    pub deposited_amount: u64,
    pub unclaimed_yield: u64,
    pub last_update: i64,
    pub bump: u8,
}

impl YieldAccount {
    /// Bytes that the record takes when stored.
    pub const LEN: usize = 121;
}

/// A yield account together with the reserve it draws on and the two
/// custody balances that back them.
#[derive(Clone, Copy, Debug, PartialEq, Eq)]
pub struct Vault {
    pub yield_reserve_key: Pubkey,
    pub yield_reserve: YieldReserve,
    pub reserve_token_account: TokenAccount,
    pub yield_account_key: Pubkey,
    pub yield_account: YieldAccount,
    pub yield_token_account: TokenAccount,
}

} // verus!
