use vaultpay::mock_yield_source::errors::MockYieldSourceError;
use vaultpay::mock_yield_source::states::{Vault, YieldAccount, YieldReserve};
use vaultpay::pubkey::{
    find_config_address, find_subscription_address, find_vaultpay_authority_address,
    find_vendor_address, find_yield_account_address, find_yield_reserve_address, Pubkey,
};
use vaultpay::token::{TokenAccount, TransferError};
use vaultpay::vaultpay::errors::VaultPayError;
use vaultpay::vaultpay::instructions::cancel_subscription::CancelSubscription;
use vaultpay::vaultpay::instructions::claim_treasury::ClaimTreasury;
use vaultpay::vaultpay::instructions::deposit::Deposit;
use vaultpay::vaultpay::instructions::init_subscription::{InitSubscription, InitSubscriptionBumps};
use vaultpay::vaultpay::instructions::init_user::{
    top_up, InitUser, LAMPORTS_PER_SOL, MIN_AUTHORITY_BALANCE, TARGET_AUTHORITY_BALANCE,
};
use vaultpay::vaultpay::instructions::init_vendor::{InitVendor, InitVendorBumps};
use vaultpay::vaultpay::instructions::initialize::{Initialize, InitializeBumps};
use vaultpay::vaultpay::instructions::process_payment::{split_payment, ProcessPayment};
use vaultpay::vaultpay::instructions::withdraw::Withdraw;
use vaultpay::vaultpay::instructions::{find_delegated_addresses, DelegatedAddresses};
use vaultpay::vaultpay::states::{
    Config, Subscription, SubscriptionStatus, Vendor, BPS_DENOMINATOR,
};

const NOW: i64 = 1_700_000_000;

fn key(n: u8) -> Pubkey {
    Pubkey::new_from_array([n; 32])
}

fn mint() -> Pubkey {
    key(1)
}

fn owner() -> Pubkey {
    key(2)
}

fn user() -> Pubkey {
    key(3)
}

fn vendor_signer() -> Pubkey {
    key(4)
}

fn tokens(k: u8, owner: Pubkey, amount: u64) -> TokenAccount {
    TokenAccount { key: key(k), mint: mint(), owner, amount }
}

fn config_key() -> Pubkey {
    find_config_address(&mint(), &owner()).unwrap().0
}

fn vendor_key() -> Pubkey {
    find_vendor_address(&config_key(), &vendor_signer()).unwrap().0
}

fn authority() -> Pubkey {
    find_vaultpay_authority_address(&config_key(), &user()).unwrap().0
}

fn reserve_key() -> Pubkey {
    find_yield_reserve_address(&mint()).unwrap().0
}

fn account_key() -> Pubkey {
    find_yield_account_address(&reserve_key(), &authority()).unwrap().0
}

fn config(fee_bps: u16) -> Config {
    Config {
        authority: owner(),
        seed: 1,
        platform_fee: fee_bps,
        min_subscription_duration: 1,
        max_subscription_duration: 100,
        supported_token: mint(),
        yield_source: key(9),
        treasury_wallet: key(30),
        locked: false,
        bump: find_config_address(&mint(), &owner()).unwrap().1,
    }
}

fn vendor() -> Vendor {
    Vendor {
        authority: vendor_signer(),
        vendor_wallet: key(31),
        seed: 2,
        is_whitelisted: true,
        bump: find_vendor_address(&config_key(), &vendor_signer()).unwrap().1,
    }
}

fn subscription(amount: u64, payments: u8) -> Subscription {
    Subscription {
        user: user(),
        vendor: vendor_key(),
        seed: 3,
        start_time: NOW,
        amount_per_payment: amount,
        number_of_payments: payments,
        payments_made: 0,
        status: SubscriptionStatus::Active,
        locked: false,
        bump: 250,
    }
}

fn vault(principal: u64, reserve: u64, last_update: i64) -> Vault {
    Vault {
        yield_reserve_key: reserve_key(),
        yield_reserve: YieldReserve {
            authority: key(12),
            token_mint: mint(),
            reserve_account: key(13),
            apy: 0.05f64.to_bits(),
            bump: find_yield_reserve_address(&mint()).unwrap().1,
        },
        reserve_token_account: tokens(13, reserve_key(), reserve),
        yield_account_key: account_key(),
        yield_account: YieldAccount {
            owner: authority(),
            yield_reserve: reserve_key(),
            token_mint: mint(),
            deposited_amount: principal,
            unclaimed_yield: 0,
            last_update,
            bump: find_yield_account_address(&reserve_key(), &authority()).unwrap().1,
        },
        yield_token_account: tokens(15, account_key(), principal),
    }
}

fn derived() -> DelegatedAddresses {
    find_delegated_addresses(&config_key(), &user(), &mint(), &reserve_key(), &authority())
}

fn payment(amount: u64, payments: u8, fee_bps: u16, principal: u64) -> ProcessPayment {
    ProcessPayment {
        vendor_signer: vendor_signer(),
        token_mint: mint(),
        config_key: config_key(),
        config: config(fee_bps),
        vaultpay_authority: authority(),
        subscription: subscription(amount, payments),
        vendor_key: vendor_key(),
        vendor: vendor(),
        vendor_token_account: tokens(31, vendor_signer(), 0),
        vaultpay_authority_ata: tokens(32, authority(), 7),
        treasury_token_account: tokens(30, config_key(), 0),
        vault: vault(principal, 1_000, NOW),
    }
}

#[test]
fn fee_of_250_bps_on_10_000_is_250() {
    assert_eq!(split_payment(10_000, 250), Ok((250, 9_750)));
}

#[test]
fn fee_and_vendor_part_add_up() {
    let amounts = [0u64, 1, 3, 39, 40, 9_999, 10_000, 10_001, 123_456_789, u64::MAX / 10_000];
    let fees = [0u16, 1, 250, 3_333, 9_999, 10_000];
    for amount in amounts {
        for fee_bps in fees {
            let (fee, to_vendor) = split_payment(amount, fee_bps).unwrap();
            assert_eq!(fee + to_vendor, amount);
            assert_eq!(fee as u128, amount as u128 * fee_bps as u128 / 10_000);
        }
    }
    assert_eq!(split_payment(39, 250), Ok((0, 39)));
    assert_eq!(split_payment(40, 250), Ok((1, 39)));
    assert_eq!(split_payment(777, 0), Ok((0, 777)));
    assert_eq!(split_payment(777, 10_000), Ok((777, 0)));
    assert_eq!(BPS_DENOMINATOR, 10_000);
}

#[test]
fn split_reports_overflow_and_underflow() {
    assert_eq!(split_payment(u64::MAX, 2), Err(VaultPayError::MathOverflow));
    assert_eq!(split_payment(u64::MAX / 10_000 + 1, 10_000), Err(VaultPayError::MathOverflow));
    assert_eq!(split_payment(10, 20_000), Err(VaultPayError::MathUnderflow));
    assert_eq!(split_payment(u64::MAX, 1), Ok((u64::MAX / 10_000, u64::MAX - u64::MAX / 10_000)));
}

#[test]
fn payment_pays_vendor_and_treasury() {
    let mut p = payment(10_000, 3, 250, 50_000);
    assert_eq!(p.process_payment(NOW, 0), Ok(()));
    assert_eq!(p.vendor_token_account.amount, 9_750);
    assert_eq!(p.treasury_token_account.amount, 250);
    assert_eq!(p.vaultpay_authority_ata.amount, 7);
    assert_eq!(p.vault.yield_account.deposited_amount, 40_000);
    assert_eq!(p.vault.yield_token_account.amount, 40_000);
    assert_eq!(p.subscription.payments_made, 1);
    assert_eq!(p.subscription.status, SubscriptionStatus::Active);
}

#[test]
fn payment_accrues_yield_before_it_withdraws() {
    let mut p = payment(10_000, 3, 250, 50_000);
    p.vault.yield_account.last_update = NOW - 100;
    assert_eq!(vaultpay::vaultpay::process_payment(&mut p, NOW, 40), Ok(()));
    assert_eq!(p.vault.yield_account.unclaimed_yield, 40);
    assert_eq!(p.vault.reserve_token_account.amount, 960);
    assert_eq!(p.vault.yield_token_account.amount, 40_040);
    assert_eq!(p.vault.yield_account.last_update, NOW);
}

#[test]
fn subscription_completes_with_its_last_payment() {
    let mut p = payment(10_000, 3, 250, 50_000);
    assert_eq!(p.process_payment(NOW, 0), Ok(()));
    assert_eq!(p.subscription.status, SubscriptionStatus::Active);
    assert_eq!(p.process_payment(NOW + 1, 0), Ok(()));
    assert_eq!(p.subscription.status, SubscriptionStatus::Active);
    assert_eq!(p.process_payment(NOW + 2, 0), Ok(()));
    assert_eq!(p.subscription.status, SubscriptionStatus::Completed);
    assert_eq!(p.subscription.payments_made, 3);
    let done = p;
    assert_eq!(p.process_payment(NOW + 3, 0), Err(VaultPayError::SubscriptionNotActive));
    assert_eq!(p, done);
    assert_eq!(p.vendor_token_account.amount, 29_250);
    assert_eq!(p.treasury_token_account.amount, 750);
    assert_eq!(p.vault.yield_account.deposited_amount, 20_000);
}

#[test]
fn cancelled_subscription_takes_no_payment_and_no_second_cancel() {
    let mut c = CancelSubscription { user: user(), subscription: subscription(10_000, 3) };
    assert_eq!(c.cancel_subscription(), Ok(()));
    assert_eq!(c.subscription.status, SubscriptionStatus::Cancelled);
    let mut p = payment(10_000, 3, 250, 50_000);
    p.subscription = c.subscription;
    let before = p;
    assert_eq!(p.process_payment(NOW, 0), Err(VaultPayError::SubscriptionNotActive));
    assert_eq!(p, before);
    assert_eq!(c.cancel_subscription(), Err(VaultPayError::SubscriptionNotActive));
    assert_eq!(
        vaultpay::vaultpay::cancel_subscription(&mut c),
        Err(VaultPayError::SubscriptionNotActive)
    );
    assert_eq!(c.subscription.status, SubscriptionStatus::Cancelled);
}

#[test]
fn completed_subscription_cannot_be_cancelled() {
    let mut s = subscription(10_000, 1);
    s.record_payment();
    assert_eq!(s.status, SubscriptionStatus::Completed);
    let mut c = CancelSubscription { user: user(), subscription: s };
    assert_eq!(c.cancel_subscription(), Err(VaultPayError::SubscriptionNotActive));
    assert_eq!(c.subscription, s);
}

#[test]
fn payment_is_refused_for_another_vendor() {
    let mut p = payment(10_000, 3, 250, 50_000);
    p.vendor_key = key(70);
    let before = p;
    assert_eq!(p.process_payment(NOW, 0), Err(VaultPayError::InvalidVendor));
    assert_eq!(p, before);
}

#[test]
fn payment_is_refused_for_an_authority_that_is_not_derived() {
    let mut p = payment(10_000, 3, 250, 50_000);
    p.vaultpay_authority = key(71);
    let before = p;
    assert_eq!(p.process_payment(NOW, 0), Err(VaultPayError::InvalidVaultPayAuthority));
    assert_eq!(p, before);
    let mut q = payment(10_000, 3, 250, 50_000);
    let mut none = derived();
    none.vaultpay_authority = None;
    assert_eq!(q.process_payment_as(&none, NOW, 0), Err(VaultPayError::InvalidVaultPayAuthority));
    let mut other = derived();
    other.vaultpay_authority = Some((key(71), 255));
    assert_eq!(q.process_payment_as(&other, NOW, 0), Err(VaultPayError::InvalidVaultPayAuthority));
    let mut any_bump = derived();
    any_bump.vaultpay_authority = Some((authority(), 0));
    assert_eq!(q.process_payment_as(&any_bump, NOW, 0), Ok(()));
}

#[test]
fn payment_is_refused_for_a_vault_that_is_not_derived() {
    let mut p = payment(10_000, 3, 250, 50_000);
    p.vault.yield_reserve_key = key(76);
    p.vault.yield_account.yield_reserve = key(76);
    let before = p;
    assert_eq!(
        p.process_payment(NOW, 0),
        Err(VaultPayError::YieldSource(MockYieldSourceError::InvalidReserve))
    );
    assert_eq!(p, before);
    let mut q = payment(10_000, 3, 250, 50_000);
    q.vault.yield_account_key = key(77);
    assert_eq!(
        q.process_payment(NOW, 0),
        Err(VaultPayError::YieldSource(MockYieldSourceError::InvalidAuthority))
    );
    let mut stale = payment(10_000, 3, 250, 50_000);
    stale.vault.yield_reserve.bump = stale.vault.yield_reserve.bump.wrapping_add(1);
    assert_eq!(
        stale.process_payment(NOW, 0),
        Err(VaultPayError::YieldSource(MockYieldSourceError::InvalidReserve))
    );
    let mut r = payment(10_000, 3, 250, 50_000);
    r.vault.yield_account.bump = r.vault.yield_account.bump.wrapping_add(1);
    assert_eq!(
        r.process_payment(NOW, 0),
        Err(VaultPayError::YieldSource(MockYieldSourceError::InvalidAuthority))
    );
    let mut given = derived();
    given.yield_account = None;
    let mut s = payment(10_000, 3, 250, 50_000);
    assert_eq!(
        s.process_payment_as(&given, NOW, 0),
        Err(VaultPayError::YieldSource(MockYieldSourceError::InvalidAuthority))
    );
    given.yield_reserve = None;
    assert_eq!(
        s.process_payment_as(&given, NOW, 0),
        Err(VaultPayError::YieldSource(MockYieldSourceError::InvalidReserve))
    );
}

#[test]
fn payment_checks_come_in_order() {
    let mut p = payment(u64::MAX, 3, 250, 50_000);
    p.vaultpay_authority = key(71);
    assert_eq!(p.process_payment(NOW, 0), Err(VaultPayError::MathOverflow));
    p.vendor_key = key(70);
    assert_eq!(p.process_payment(NOW, 0), Err(VaultPayError::InvalidVendor));
    p.subscription.status = SubscriptionStatus::Completed;
    assert_eq!(p.process_payment(NOW, 0), Err(VaultPayError::SubscriptionNotActive));
    let mut q = payment(10, 3, 20_000, 50_000);
    assert_eq!(q.process_payment(NOW, 0), Err(VaultPayError::MathUnderflow));
}

#[test]
fn payment_fails_as_a_whole_when_the_vault_cannot_pay() {
    let mut p = payment(10_000, 3, 250, 9_999);
    p.vault.yield_token_account.amount = 20_000;
    let before = p;
    assert_eq!(
        p.process_payment(NOW, 0),
        Err(VaultPayError::YieldSource(MockYieldSourceError::MathUnderflow))
    );
    assert_eq!(p, before);
    let mut q = payment(10_000, 3, 250, 50_000);
    q.vault.yield_account.last_update = NOW - 100;
    let before = q;
    assert_eq!(
        q.process_payment(NOW, 1_001),
        Err(VaultPayError::YieldSource(MockYieldSourceError::InsufficientFunds))
    );
    assert_eq!(q, before);
}

#[test]
fn payment_fails_as_a_whole_when_the_treasury_refuses() {
    let mut p = payment(10_000, 3, 250, 50_000);
    p.treasury_token_account.amount = u64::MAX;
    let before = p;
    assert_eq!(
        p.process_payment(NOW, 0),
        Err(VaultPayError::Transfer(TransferError::Overflow))
    );
    assert_eq!(p, before);
    let mut q = payment(10_000, 3, 250, 50_000);
    q.vendor_token_account.mint = key(72);
    let before = q;
    assert_eq!(
        q.process_payment(NOW, 0),
        Err(VaultPayError::Transfer(TransferError::MintMismatch))
    );
    assert_eq!(q, before);
}

#[test]
fn payment_counter_cannot_wrap() {
    let mut p = payment(10, 255, 250, 50_000);
    p.subscription.payments_made = 255;
    let before = p;
    assert_eq!(p.process_payment(NOW, 0), Err(VaultPayError::MathOverflow));
    assert_eq!(p, before);
}

#[test]
fn initialize_writes_the_configuration() {
    let (config_key, bump) = find_config_address(&mint(), &owner()).unwrap();
    let before = Initialize {
        owner: owner(),
        supported_token: mint(),
        treasury: tokens(30, config_key, 0),
        config_key,
        config: config(0),
        yield_program: key(9),
    };
    let mut ctx = before;
    assert_eq!(vaultpay::vaultpay::initialize(&mut ctx, 5, 250, 10, 20), Ok(()));
    assert_eq!(
        ctx.config,
        Config {
            authority: owner(),
            seed: 5,
            platform_fee: 250,
            min_subscription_duration: 10,
            max_subscription_duration: 20,
            supported_token: mint(),
            yield_source: key(9),
            treasury_wallet: key(30),
            locked: false,
            bump,
        }
    );
    let mut whole = before;
    assert_eq!(vaultpay::vaultpay::initialize(&mut whole, 5, 10_000, 10, 20), Ok(()));
    let mut above = before;
    assert_eq!(
        vaultpay::vaultpay::initialize(&mut above, 5, 10_001, 10, 20),
        Err(VaultPayError::InvalidAmount)
    );
    assert_eq!(above, before);
    assert_eq!(
        above.init(5, 10_001, 10, 20, &InitializeBumps { config: 1 }),
        Err(VaultPayError::InvalidAmount)
    );
    let mut elsewhere = before;
    elsewhere.config_key = key(73);
    assert_eq!(
        vaultpay::vaultpay::initialize(&mut elsewhere, 5, 250, 10, 20),
        Err(VaultPayError::InvalidVaultPayAuthority)
    );
    let mut direct = before;
    assert_eq!(direct.init(5, 250, 10, 20, &InitializeBumps { config: 77 }), Ok(()));
    assert_eq!(direct.config.bump, 77);
}

#[test]
fn init_vendor_registers_a_whitelisted_vendor() {
    let (vendor_key, bump) = find_vendor_address(&config_key(), &vendor_signer()).unwrap();
    let blank =
        Vendor { authority: key(0), vendor_wallet: key(0), seed: 0, is_whitelisted: false, bump: 0 };
    let before = InitVendor {
        vendor_signer: vendor_signer(),
        token_mint: mint(),
        config_key: config_key(),
        config: config(250),
        vendor_key,
        vendor: blank,
        vendor_token_account: tokens(31, vendor_key, 0),
    };
    let mut ctx = before;
    assert_eq!(vaultpay::vaultpay::init_vendor(&mut ctx, 8), Ok(()));
    assert_eq!(
        ctx.vendor,
        Vendor {
            authority: vendor_signer(),
            vendor_wallet: key(31),
            seed: 8,
            is_whitelisted: true,
            bump,
        }
    );
    let mut elsewhere = before;
    elsewhere.vendor_key = key(74);
    assert_eq!(vaultpay::vaultpay::init_vendor(&mut elsewhere, 8), Err(VaultPayError::InvalidVendor));
    assert_eq!(elsewhere.vendor, blank);
    let mut direct = before;
    assert_eq!(direct.init_vendor(8, &InitVendorBumps { vendor: 66 }), Ok(()));
    assert_eq!(direct.vendor.bump, 66);
}

#[test]
fn init_subscription_starts_active_with_no_payment_made() {
    let (subscription_key, bump) = find_subscription_address(&vendor_key(), &user()).unwrap();
    let mut stale = subscription(1, 1);
    stale.status = SubscriptionStatus::Cancelled;
    let before = InitSubscription {
        user: user(),
        token_mint: mint(),
        config_key: config_key(),
        config: config(250),
        vendor_key: vendor_key(),
        vendor: vendor(),
        subscription_key,
        subscription: stale,
    };
    let mut ctx = before;
    assert_eq!(vaultpay::vaultpay::init_subscription(&mut ctx, 6, 10_000, 12, NOW + 5), Ok(()));
    assert_eq!(
        ctx.subscription,
        Subscription {
            user: user(),
            vendor: vendor_key(),
            seed: 6,
            start_time: NOW + 5,
            amount_per_payment: 10_000,
            number_of_payments: 12,
            payments_made: 0,
            status: SubscriptionStatus::Active,
            locked: false,
            bump,
        }
    );
    let mut none = before;
    assert_eq!(
        vaultpay::vaultpay::init_subscription(&mut none, 6, 10_000, 0, NOW),
        Err(VaultPayError::InvalidAmount)
    );
    assert_eq!(none, before);
    let mut elsewhere = before;
    elsewhere.subscription_key = key(75);
    assert_eq!(
        vaultpay::vaultpay::init_subscription(&mut elsewhere, 6, 10_000, 12, NOW),
        Err(VaultPayError::InvalidVendor)
    );
    let mut direct = before;
    assert_eq!(
        direct.init_subscription(6, 1, 1, NOW, &InitSubscriptionBumps { subscription: 55 }),
        Ok(())
    );
    assert_eq!(direct.subscription.bump, 55);
    assert_eq!(
        direct.init_subscription(6, 1, 0, NOW, &InitSubscriptionBumps { subscription: 55 }),
        Err(VaultPayError::InvalidAmount)
    );
}

fn user_accounts(user_lamports: u64, authority_lamports: u64) -> InitUser {
    InitUser {
        user: user(),
        user_lamports,
        token_mint: mint(),
        config_key: config_key(),
        config: config(250),
        vaultpay_authority: authority(),
        vaultpay_authority_lamports: authority_lamports,
        yield_reserve_key: reserve_key(),
        yield_reserve: vault(0, 0, 0).yield_reserve,
        yield_account_key: account_key(),
        yield_account: YieldAccount {
            owner: key(0),
            yield_reserve: key(0),
            token_mint: key(0),
            deposited_amount: 5,
            unclaimed_yield: 5,
            last_update: 5,
            bump: 5,
        },
        yield_token_account: tokens(15, account_key(), 0),
    }
}

#[test]
fn top_up_brings_a_low_balance_to_the_target() {
    assert_eq!(LAMPORTS_PER_SOL, 1_000_000_000);
    assert_eq!(LAMPORTS_PER_SOL, anchor_lang::solana_program::native_token::LAMPORTS_PER_SOL);
    assert_eq!(MIN_AUTHORITY_BALANCE, 10_000_000);
    assert_eq!(TARGET_AUTHORITY_BALANCE, 30_000_000);
    assert_eq!(top_up(0), 30_000_000);
    assert_eq!(top_up(1), 29_999_999);
    assert_eq!(top_up(9_999_999), 20_000_001);
    assert_eq!(top_up(10_000_000), 0);
    assert_eq!(top_up(u64::MAX), 0);
}

#[test]
fn init_user_funds_the_authority_and_opens_its_vault() {
    let mut ctx = user_accounts(50_000_000, 4_000_000);
    assert_eq!(vaultpay::vaultpay::init_user(&mut ctx, NOW), Ok(()));
    assert_eq!(ctx.user_lamports, 24_000_000);
    assert_eq!(ctx.vaultpay_authority_lamports, 30_000_000);
    assert_eq!(
        ctx.yield_account,
        YieldAccount {
            owner: authority(),
            yield_reserve: reserve_key(),
            token_mint: mint(),
            deposited_amount: 0,
            unclaimed_yield: 0,
            last_update: NOW,
            bump: find_yield_account_address(&reserve_key(), &authority()).unwrap().1,
        }
    );
    let mut funded = user_accounts(0, 10_000_000);
    assert_eq!(funded.init_user(NOW), Ok(()));
    assert_eq!((funded.user_lamports, funded.vaultpay_authority_lamports), (0, 10_000_000));
}

#[test]
fn init_user_refuses_accounts_that_are_not_derived() {
    let before = user_accounts(25_999_999, 4_000_000);
    let mut poor = before;
    assert_eq!(poor.init_user(NOW), Err(VaultPayError::InsufficientFunds));
    assert_eq!(poor, before);
    let mut account = user_accounts(50_000_000, 0);
    account.yield_account_key = key(80);
    assert_eq!(account.init_user(NOW), Err(VaultPayError::InvalidYieldAccount));
    assert_eq!(account.user_lamports, 50_000_000);
    let mut reserve = user_accounts(50_000_000, 0);
    reserve.yield_reserve_key = key(81);
    reserve.yield_account_key =
        find_yield_account_address(&key(81), &authority()).unwrap().0;
    assert_eq!(reserve.init_user(NOW), Err(VaultPayError::InvalidYieldReserve));
    let mut stranger = user_accounts(50_000_000, 0);
    stranger.vaultpay_authority = key(82);
    assert_eq!(stranger.init_user(NOW), Err(VaultPayError::InvalidVaultPayAuthority));
    let mut given = user_accounts(50_000_000, 0);
    let found = DelegatedAddresses {
        vaultpay_authority: Some((authority(), 1)),
        yield_reserve: Some((reserve_key(), 2)),
        yield_account: Some((account_key(), 99)),
    };
    assert_eq!(given.init_user_with(&found, NOW), Ok(()));
    assert_eq!(given.yield_account.bump, 99);
    let no_account = DelegatedAddresses { yield_account: None, ..found };
    assert_eq!(given.init_user_with(&no_account, NOW), Err(VaultPayError::InvalidYieldAccount));
    let no_reserve = DelegatedAddresses { yield_reserve: None, ..found };
    assert_eq!(given.init_user_with(&no_reserve, NOW), Err(VaultPayError::InvalidYieldReserve));
    let no_authority = DelegatedAddresses { vaultpay_authority: None, ..found };
    assert_eq!(
        given.init_user_with(&no_authority, NOW),
        Err(VaultPayError::InvalidVaultPayAuthority)
    );
}

fn deposit_accounts(user_balance: u64, principal: u64) -> Deposit {
    Deposit {
        user: user(),
        token_mint: mint(),
        config_key: config_key(),
        vaultpay_authority: authority(),
        user_token_account: tokens(33, user(), user_balance),
        vaultpay_authority_ata: tokens(32, authority(), 0),
        vault: vault(principal, 1_000, NOW),
    }
}

#[test]
fn deposit_and_withdraw_go_through_the_delegated_authority() {
    let mut d = deposit_accounts(900, 100);
    assert_eq!(vaultpay::vaultpay::deposit(&mut d, 600, NOW, 0), Ok(()));
    assert_eq!(d.user_token_account.amount, 300);
    assert_eq!(d.vaultpay_authority_ata.amount, 0);
    assert_eq!(d.vault.yield_account.deposited_amount, 700);
    assert_eq!(d.vault.yield_token_account.amount, 700);
    let mut w = Withdraw {
        user: d.user,
        token_mint: d.token_mint,
        config_key: d.config_key,
        vaultpay_authority: d.vaultpay_authority,
        user_token_account: d.user_token_account,
        vaultpay_authority_ata: d.vaultpay_authority_ata,
        vault: d.vault,
    };
    assert_eq!(vaultpay::vaultpay::withdraw(&mut w, 600, NOW, 0), Ok(()));
    assert_eq!(w.user_token_account.amount, 900);
    assert_eq!(w.vaultpay_authority_ata.amount, 0);
    assert_eq!(w.vault, vault(100, 1_000, NOW));
    let before = w;
    assert_eq!(
        w.withdraw(101, NOW, 0),
        Err(VaultPayError::YieldSource(MockYieldSourceError::Transfer(
            TransferError::InsufficientFunds
        )))
    );
    assert_eq!(w, before);
    w.vaultpay_authority = key(83);
    assert_eq!(w.withdraw(1, NOW, 0), Err(VaultPayError::InvalidVaultPayAuthority));
    let none = DelegatedAddresses { vaultpay_authority: None, ..derived() };
    assert_eq!(w.withdraw_as(&none, 1, NOW, 0), Err(VaultPayError::InvalidVaultPayAuthority));
    let mut elsewhere = before;
    elsewhere.vault.yield_account_key = key(87);
    assert_eq!(
        elsewhere.withdraw(1, NOW, 0),
        Err(VaultPayError::YieldSource(MockYieldSourceError::InvalidAuthority))
    );
}

#[test]
fn deposit_fails_as_a_whole() {
    let before = deposit_accounts(900, 100);
    let mut d = before;
    assert_eq!(
        d.deposit(901, NOW, 0),
        Err(VaultPayError::Transfer(TransferError::InsufficientFunds))
    );
    assert_eq!(d, before);
    assert_eq!(
        d.deposit(1, NOW - 1, 0),
        Err(VaultPayError::YieldSource(MockYieldSourceError::ClockRegression))
    );
    assert_eq!(d, before);
    d.vaultpay_authority = key(84);
    assert_eq!(d.deposit(1, NOW, 0), Err(VaultPayError::InvalidVaultPayAuthority));
    let none = DelegatedAddresses { vaultpay_authority: None, ..derived() };
    assert_eq!(d.deposit_as(&none, 1, NOW, 0), Err(VaultPayError::InvalidVaultPayAuthority));
    let mut elsewhere = before;
    elsewhere.vault.yield_reserve_key = key(88);
    elsewhere.vault.yield_account.yield_reserve = key(88);
    assert_eq!(
        elsewhere.deposit(1, NOW, 0),
        Err(VaultPayError::YieldSource(MockYieldSourceError::InvalidReserve))
    );
    assert_eq!(elsewhere.user_token_account.amount, 900);
}

fn claim_accounts(treasury: u64) -> ClaimTreasury {
    ClaimTreasury {
        owner: owner(),
        supported_token: mint(),
        config_key: config_key(),
        config: config(250),
        treasury_token_account: tokens(30, config_key(), treasury),
        owner_token_account: tokens(34, owner(), 10),
    }
}

#[test]
fn claim_moves_the_treasury_to_the_owner() {
    let mut all = claim_accounts(750);
    assert_eq!(all.claim_treasury(), Ok(()));
    assert_eq!((all.treasury_token_account.amount, all.owner_token_account.amount), (0, 760));
    let mut part = claim_accounts(750);
    assert_eq!(vaultpay::vaultpay::claim_treasury(&mut part, 700), Ok(()));
    assert_eq!((part.treasury_token_account.amount, part.owner_token_account.amount), (50, 710));
}

#[test]
fn claim_is_refused_without_funds_or_authority() {
    let before = claim_accounts(0);
    let mut empty = before;
    assert_eq!(empty.claim_treasury(), Err(VaultPayError::InsufficientFunds));
    assert_eq!(empty, before);
    let mut over = claim_accounts(750);
    assert_eq!(over.claim_treasury_amount(751), Err(VaultPayError::InsufficientFunds));
    assert_eq!(over.claim_treasury_amount(0), Err(VaultPayError::InsufficientFunds));
    assert_eq!(over, claim_accounts(750));
    let mut stranger = claim_accounts(750);
    stranger.owner = key(85);
    assert_eq!(stranger.claim_treasury(), Err(VaultPayError::InvalidVaultPayAuthority));
    let mut elsewhere = claim_accounts(750);
    elsewhere.config_key = key(89);
    elsewhere.treasury_token_account.owner = key(89);
    assert_eq!(elsewhere.claim_treasury(), Err(VaultPayError::InvalidVaultPayAuthority));
    let mut wrong_bump = claim_accounts(750);
    wrong_bump.config.bump = wrong_bump.config.bump.wrapping_add(1);
    assert_eq!(wrong_bump.claim_treasury_amount(1), Err(VaultPayError::InvalidVaultPayAuthority));
    assert_eq!(wrong_bump.claim_as(&None, 1), Err(VaultPayError::InvalidVaultPayAuthority));
    assert_eq!(wrong_bump.claim_as(&Some((config_key(), wrong_bump.config.bump)), 1), Ok(()));
    let mut unowned = claim_accounts(750);
    unowned.treasury_token_account.owner = key(86);
    assert_eq!(
        unowned.claim_treasury(),
        Err(VaultPayError::Transfer(TransferError::InvalidAuthority))
    );
}

#[test]
fn billing_errors_have_messages() {
    assert_eq!(VaultPayError::SubscriptionNotActive.message(), "The subscription is not active.");
    assert_eq!(VaultPayError::InvalidYieldAccount.message(), "Invalid Yield Account");
    assert_eq!(VaultPayError::InvalidYieldReserve.message(), "Invalid Yield Reserve");
    assert_eq!(VaultPayError::InvalidVendor.message(), "Invalid Vendor");
    assert_eq!(VaultPayError::MathUnderflow.message(), "Math Underflow");
    assert_eq!(VaultPayError::MathOverflow.message(), "Math Overflow");
    assert_eq!(VaultPayError::InvalidVaultPayAuthority.message(), "Invalid Vault Pay Authority");
    assert_eq!(VaultPayError::InsufficientFunds.message(), "Insufficient Funds");
    assert_eq!(VaultPayError::InvalidAmount.message(), "Invalid Amount");
    assert_eq!(
        VaultPayError::YieldSource(MockYieldSourceError::InvalidReserve).message(),
        "Invalid reserve"
    );
    assert_eq!(VaultPayError::Transfer(TransferError::Overflow).message(), "Transfer refused");
}

#[test]
fn record_sizes_of_the_billing_ledger() {
    assert_eq!(Config::INIT_SPACE, 32 + 8 + 2 + 8 + 8 + 32 + 32 + 32 + 1 + 1);
    assert_eq!(Vendor::LEN, 32 + 32 + 8 + 1 + 1);
    assert_eq!(Subscription::LEN, 32 + 32 + 8 + 8 + 8 + 1 + 1 + 1 + 1 + 1);
}
