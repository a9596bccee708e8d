//! Custody balances and the atomic transfer between two of them.

use vstd::prelude::*;
use crate::pubkey::Pubkey;

verus! {

/// A balance of one asset, held at `key` and controlled by `owner`.
#[derive(Clone, Copy, Debug, PartialEq, Eq)]
pub struct TokenAccount {
    pub key: Pubkey,
    pub mint: Pubkey,
    pub owner: Pubkey,
    pub amount: u64,
}

/// Why a transfer between two balances was refused.
#[derive(Clone, Copy, Debug, PartialEq, Eq, Structural)]
pub enum TransferError {
    /// The two balances hold different assets.
    MintMismatch,
    /// The authorizer does not control the source balance.
    InvalidAuthority,
    /// The source balance holds less than the amount.
    InsufficientFunds,
    /// The destination balance cannot hold the amount.
    Overflow,
}

/// The two balances after moving `amount` from `from` to `to` on the word
/// of `authority`, or the reason why nothing moves.
pub open spec fn spec_transfer(
    from: TokenAccount,
    to: TokenAccount,
    amount: u64,
    authority: Pubkey,
) -> Result<(TokenAccount, TokenAccount), TransferError> {
    if from.mint != to.mint {
        Err(TransferError::MintMismatch)
    } else if from.owner != authority {
        Err(TransferError::InvalidAuthority)
    } else if from.amount < amount {
        Err(TransferError::InsufficientFunds)
    } else if to.amount + amount > u64::MAX {
        Err(TransferError::Overflow)
    } else {
        Ok(
            (
                TokenAccount { amount: (from.amount - amount) as u64, ..from },
                TokenAccount { amount: (to.amount + amount) as u64, ..to },
            ),
        )
    }
}

/// Moves `amount` units from `from` to `to`, authorized by `authority`.
/// Either the whole amount moves or nothing changes.
pub fn transfer(
    from: &mut TokenAccount,
    to: &mut TokenAccount,
    amount: u64,
    authority: &Pubkey,
) -> (r: Result<(), TransferError>)
    ensures
        spec_transfer(*old(from), *old(to), amount, *authority) == (match r {
            Ok(()) => Ok((*final(from), *final(to))),
            Err(e) => Err(e),
        }),
        r is Err ==> *final(from) == *old(from) && *final(to) == *old(to),
{
    if from.mint != to.mint {
        return Err(TransferError::MintMismatch);
    }
    if from.owner != *authority {
        return Err(TransferError::InvalidAuthority);
    }
    if from.amount < amount {
        return Err(TransferError::InsufficientFunds);
    }
    if amount > u64::MAX - to.amount {
        return Err(TransferError::Overflow);
    }
    from.amount = from.amount - amount;
    to.amount = to.amount + amount;
    Ok(())
}

/// A transfer that succeeds keeps the sum of the two balances, takes
/// exactly `amount` from the source and touches nothing but the amounts.
pub proof fn lemma_transfer_conserves(
    from: TokenAccount,
    to: TokenAccount,
    amount: u64,
    authority: Pubkey,
)
    requires
        spec_transfer(from, to, amount, authority) is Ok,
    ensures
        ({
            let (a, b) = spec_transfer(from, to, amount, authority)->Ok_0;
            &&& a.amount + b.amount == from.amount + to.amount
            &&& a.amount == from.amount - amount
            &&& b.amount == to.amount + amount
            &&& a.key == from.key && a.owner == from.owner && a.mint == from.mint
            &&& b.key == to.key && b.owner == to.owner && b.mint == to.mint
        }),
{
}

} // verus!
