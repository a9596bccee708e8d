//! The yield engine: a reserve per asset, one yield account per depositor,
//! and interest that accrues on deposits and is paid out of the reserve.
//!
//! The functions of this module are the entry points of the engine. The
//! ones that create a record first derive its address, refuse accounts
//! that sit elsewhere, and store the bump of the derivation with the record.
//! The ones that work on a vault first check that its records sit at their
//! derived addresses.

use vstd::prelude::*;
use crate::mock_yield_source::errors::MockYieldSourceError;
use crate::mock_yield_source::instructions::{
    Deposit, Initialize, InitializeBumps, OpenVault, OpenVaultBumps, Withdraw,
};
use crate::pubkey::{
    bump_for, find_yield_account_address, find_yield_reserve_address, spec_bump_for,
    spec_yield_account_address, spec_yield_reserve_address, Pubkey,
};

pub mod errors;
pub mod helper;
pub mod instructions;
pub mod states;

verus! {

/// The accounts after `initialize`, or the reason why it is refused: the
/// reserve must sit at the address derived for the asset.
pub open spec fn spec_initialize(ctx: Initialize, apy: u64, initial_deposit: u64) -> Result<
    Initialize,
    MockYieldSourceError,
> {
    match spec_bump_for(spec_yield_reserve_address(ctx.token_mint), ctx.yield_reserve_key) {
        None => Err(MockYieldSourceError::InvalidReserve),
        Some(bump) => ctx.spec_init_yield_reserve(
            apy,
            initial_deposit,
            InitializeBumps { yield_reserve: bump },
        ),
    }
}

/// Creates the reserve of an asset at its derived address and funds it.
pub fn initialize(ctx: &mut Initialize, apy: u64, initial_deposit: u64) -> (r: Result<
    (),
    MockYieldSourceError,
>)
    ensures
        spec_initialize(*old(ctx), apy, initial_deposit) == (match r {
            Ok(()) => Ok(*final(ctx)),
            Err(e) => Err(e),
        }),
        r is Err ==> *final(ctx) == *old(ctx),
{
    let derived = find_yield_reserve_address(&ctx.token_mint);
    match bump_for(&derived, &ctx.yield_reserve_key) {
        None => Err(MockYieldSourceError::InvalidReserve),
        Some(bump) => ctx.init_yield_reserve(
            apy,
            initial_deposit,
            &InitializeBumps { yield_reserve: bump },
        ),
    }
}

/// The accounts after `open_vault`, or the reason why it is refused: the
/// yield account must sit at the address derived for the reserve and the
/// authority.
pub open spec fn spec_open_vault(ctx: OpenVault, authority: Pubkey, current_time: i64) -> Result<
    OpenVault,
    MockYieldSourceError,
> {
    match spec_bump_for(
        spec_yield_account_address(ctx.yield_reserve_key, authority),
        ctx.yield_account_key,
    ) {
        None => Err(MockYieldSourceError::InvalidAuthority),
        Some(bump) => ctx.spec_open_vault(
            authority,
            OpenVaultBumps { yield_account: bump },
            current_time,
        ),
    }
}

/// Opens the vault of `authority` in the reserve, at its derived address.
pub fn open_vault(ctx: &mut OpenVault, authority: Pubkey, current_time: i64) -> (r: Result<
    (),
    MockYieldSourceError,
>)
    ensures
        spec_open_vault(*old(ctx), authority, current_time) == (match r {
            Ok(()) => Ok(*final(ctx)),
            Err(e) => Err(e),
        }),
        r is Err ==> *final(ctx) == *old(ctx),
{
    let derived = find_yield_account_address(&ctx.yield_reserve_key, &authority);
    match bump_for(&derived, &ctx.yield_account_key) {
        None => Err(MockYieldSourceError::InvalidAuthority),
        Some(bump) => ctx.open_vault(
            authority,
            &OpenVaultBumps { yield_account: bump },
            current_time,
        ),
    }
}

/// The accounts after `deposit`, or the reason why it is refused: the
/// records must sit at their derived addresses, then the deposit is made.
pub open spec fn spec_deposit(
    ctx: Deposit,
    amount: u64,
    current_time: i64,
    compounded: u64,
) -> Result<Deposit, MockYieldSourceError> {
    match ctx.vault.spec_deposit_checked(
        spec_yield_reserve_address(ctx.token_mint),
        spec_yield_account_address(ctx.vault.yield_reserve_key, ctx.user),
        ctx.user_token_account,
        ctx.user,
        amount,
        current_time,
        compounded,
    ) {
        Err(e) => Err(e),
        Ok((vault, source)) => Ok(Deposit { vault, user_token_account: source, ..ctx }),
    }
}

/// Deposits `amount` into the user's vault.
pub fn deposit(ctx: &mut Deposit, amount: u64, current_time: i64, compounded: u64) -> (r: Result<
    (),
    MockYieldSourceError,
>)
    ensures
        spec_deposit(*old(ctx), amount, current_time, compounded) == (match r {
            Ok(()) => Ok(*final(ctx)),
            Err(e) => Err(e),
        }),
        r is Err ==> *final(ctx) == *old(ctx),
{
    let derived_reserve = find_yield_reserve_address(&ctx.token_mint);
    let derived_account = find_yield_account_address(&ctx.vault.yield_reserve_key, &ctx.user);
    let depositor: Pubkey = ctx.user;
    ctx.vault.deposit_checked(
        &derived_reserve,
        &derived_account,
        &mut ctx.user_token_account,
        &depositor,
        amount,
        current_time,
        compounded,
    )
}

/// The accounts after `withdraw`, or the reason why it is refused: the
/// records must sit at their derived addresses, then the withdrawal is
/// made.
pub open spec fn spec_withdraw(
    ctx: Withdraw,
    amount: u64,
    current_time: i64,
    compounded: u64,
) -> Result<Withdraw, MockYieldSourceError> {
    match ctx.vault.spec_withdraw_checked(
        spec_yield_reserve_address(ctx.token_mint),
        spec_yield_account_address(ctx.vault.yield_reserve_key, ctx.authority),
        ctx.user_token_account,
        ctx.authority,
        amount,
        current_time,
        compounded,
    ) {
        Err(e) => Err(e),
        Ok((vault, destination)) => Ok(Withdraw { vault, user_token_account: destination, ..ctx }),
    }
}

/// Withdraws `amount` from the authority's vault.
pub fn withdraw(ctx: &mut Withdraw, amount: u64, current_time: i64, compounded: u64) -> (r: Result<
    (),
    MockYieldSourceError,
>)
    ensures
        spec_withdraw(*old(ctx), amount, current_time, compounded) == (match r {
            Ok(()) => Ok(*final(ctx)),
            Err(e) => Err(e),
        }),
        r is Err ==> *final(ctx) == *old(ctx),
{
    let derived_reserve = find_yield_reserve_address(&ctx.token_mint);
    let derived_account = find_yield_account_address(&ctx.vault.yield_reserve_key, &ctx.authority);
    let authority: Pubkey = ctx.authority;
    ctx.vault.withdraw_checked(
        &derived_reserve,
        &derived_account,
        &mut ctx.user_token_account,
        &authority,
        amount,
        current_time,
        compounded,
    )
}

} // verus!
