use stepfi::liquidity_pool::errors::LiquidityPoolError;
use stepfi::liquidity_pool::pool::{interest_parts, share_price};
use stepfi::liquidity_pool::safe_math::{add_i128, div_i128, mul_i128, sub_i128};
use stepfi::liquidity_pool::storage::LiquidityPoolContract;
use stepfi::liquidity_pool::types::{Payment, DEAD_SHARES_AMOUNT, SHARE_PRICE_PRECISION};

const ADMIN: u64 = 1;
const TOKEN: u64 = 2;
const TREASURY: u64 = 3;
const MERCHANT_FUND: u64 = 4;
const CREDITLINE: u64 = 5;
const ALICE: u64 = 10;
const BOB: u64 = 11;
const SHOP: u64 = 20;

fn setup() -> LiquidityPoolContract {
    let mut p = LiquidityPoolContract::new();
    p.initialize(ADMIN, TOKEN, TREASURY, MERCHANT_FUND, None).unwrap();
    p.set_creditline(ADMIN, CREDITLINE).unwrap();
    p
}

#[test]
fn first_deposit_is_one_to_one_and_mints_dead_shares() {
    let mut p = setup();
    assert_eq!(p.deposit(ALICE, 1_000), Ok(1_000));
    assert_eq!(p.get_lp_shares(ALICE), 1_000);
    assert_eq!(p.total_shares, 1_000 + DEAD_SHARES_AMOUNT);
    assert_eq!(p.get_share_price(), Ok(SHARE_PRICE_PRECISION));
}

#[test]
fn honest_round_trip_returns_principal() {
    let mut p = setup();
    p.deposit(ALICE, 1_000).unwrap();
    assert_eq!(p.deposit(BOB, 1_000), Ok(1_000));
    assert_eq!(p.withdraw(ALICE, 1_000), Ok(1_000));
    assert_eq!(p.withdraw(BOB, 1_000), Ok(1_000));
    assert_eq!(p.total_liquidity, 0);
}

#[test]
fn deposits_below_minimum_are_rejected() {
    let mut p = setup();
    assert_eq!(p.deposit(ALICE, 999), Err(LiquidityPoolError::InvalidAmount));
    assert_eq!(p.deposit(ALICE, 0), Err(LiquidityPoolError::InvalidAmount));
}

#[test]
fn interest_split_and_dilution_by_dead_shares() {
    let mut p = setup();
    p.deposit(ALICE, 1_000).unwrap();
    let split = p.distribute_interest(CREDITLINE, 100).unwrap();
    assert_eq!(split.lp_amount, 85);
    assert_eq!(split.protocol_amount, 10);
    assert_eq!(split.merchant_amount, 5);
    assert_eq!(split.treasury_payment, Some(Payment { to: TREASURY, amount: 10 }));
    assert_eq!(split.merchant_fund_payment, Some(Payment { to: MERCHANT_FUND, amount: 5 }));
    assert_eq!(p.total_liquidity, 1_085);
    assert_eq!(p.withdraw(ALICE, 1_000), Ok(1_042));
}

#[test]
fn unrouted_interest_parts_stay_with_the_providers() {
    let mut p = setup();
    p.deposit(ALICE, 1_000).unwrap();
    p.treasury = None;
    p.merchant_fund = None;
    let split = p.distribute_interest(CREDITLINE, 100).unwrap();
    assert_eq!(split.retained_amount, 100);
    assert_eq!(split.treasury_payment, None);
    assert_eq!(split.merchant_fund_payment, None);
    assert_eq!(p.total_liquidity, 1_100);
}

#[test]
fn routed_interest_parts_leave_the_pool() {
    let mut p = setup();
    p.deposit(ALICE, 1_000).unwrap();
    p.merchant_fund = None;
    let split = p.distribute_interest(CREDITLINE, 100).unwrap();
    assert_eq!(split.retained_amount, 90);
    assert_eq!(p.total_liquidity, 1_090);
}

#[test]
fn only_the_creditline_moves_pool_funds() {
    let mut p = setup();
    p.deposit(ALICE, 5_000).unwrap();
    assert_eq!(p.distribute_interest(ALICE, 100).err(), Some(LiquidityPoolError::NotCreditLine));
    assert_eq!(p.fund_loan(ALICE, SHOP, 100, 1, true).err(), Some(LiquidityPoolError::NotCreditLine));
}

#[test]
fn funding_locks_and_repayment_unlocks() {
    let mut p = setup();
    p.deposit(ALICE, 5_000).unwrap();
    p.fund_loan(CREDITLINE, SHOP, 800, 1, true).unwrap();
    assert_eq!(p.locked_liquidity, 800);
    assert_eq!(p.get_merchant_funded(SHOP), 800);
    let stats = p.get_pool_stats().unwrap();
    assert_eq!(stats.available_liquidity, 4_200);
    assert_eq!(p.fund_loan(CREDITLINE, SHOP, 4_201, 1, true).err(), Some(LiquidityPoolError::InsufficientLiquidity));
    p.receive_repayment(CREDITLINE, 800, 0).unwrap();
    assert_eq!(p.locked_liquidity, 0);
    assert_eq!(p.total_liquidity, 5_000);
}

#[test]
fn post_default_deposit_does_not_brick() {
    let mut p = setup();
    p.deposit(ALICE, 10_000).unwrap();
    p.fund_loan(CREDITLINE, SHOP, 10_000, 1, true).unwrap();
    p.absorb_loss(CREDITLINE, 10_000).unwrap();
    assert_eq!(p.total_liquidity, 0);
    assert_eq!(p.get_share_price(), Ok(909));
    let shares = p.deposit(BOB, 1_000).unwrap();
    assert!(shares > 1_000);
}

#[test]
fn merchant_exposure_cap_is_enforced() {
    let mut p = setup();
    p.deposit(ALICE, 10_000).unwrap();
    p.set_merchant_exposure_cap(ADMIN, 1_000).unwrap();
    p.fund_loan(CREDITLINE, SHOP, 600, 1, true).unwrap();
    assert_eq!(
        p.fund_loan(CREDITLINE, SHOP, 401, 1, true).err(),
        Some(LiquidityPoolError::MerchantExposureCapExceeded)
    );
}

#[test]
fn pause_blocks_deposits() {
    let mut p = setup();
    p.pause(ADMIN).unwrap();
    assert_eq!(p.deposit(ALICE, 1_000), Err(LiquidityPoolError::ContractPaused));
    p.unpause(ADMIN).unwrap();
    assert_eq!(p.deposit(ALICE, 1_000), Ok(1_000));
}

#[test]
fn upgrade_requires_timelock_and_matching_hash() {
    let mut p = setup();
    let h = [9u8; 32];
    assert_eq!(p.execute_upgrade(h, 0).err(), Some(LiquidityPoolError::UpgradeNotProposed));
    p.propose_upgrade(h, 100, 50).unwrap();
    assert_eq!(p.execute_upgrade(h, 149).err(), Some(LiquidityPoolError::UpgradeTimelockNotMet));
    assert_eq!(p.execute_upgrade([1u8; 32], 150).err(), Some(LiquidityPoolError::UpgradeHashMismatch));
    assert!(p.execute_upgrade(h, 150).is_ok());
    assert_eq!(p.get_version(), 2);
}

#[test]
fn share_price_formula() {
    assert_eq!(share_price(0, 0), Ok(10_000));
    assert_eq!(share_price(1_085, 2_000), Ok(10_425));
    assert_eq!(share_price(0, 11_000), Ok(909));
    assert_eq!(share_price(0, i128::MAX), Ok(1));
}

#[test]
fn interest_parts_formula() {
    assert_eq!(interest_parts(100), Ok((85, 10, 5)));
    assert_eq!(interest_parts(7), Ok((5, 0, 2)));
}

#[test]
fn pool_safe_math() {
    assert_eq!(add_i128(1, 2), Ok(3));
    assert_eq!(add_i128(i128::MAX, 1), Err(LiquidityPoolError::Overflow));
    assert_eq!(sub_i128(i128::MIN, 1), Err(LiquidityPoolError::Underflow));
    assert_eq!(mul_i128(3, 4), Ok(12));
    assert_eq!(div_i128(9, 2), Ok(4));
    assert_eq!(div_i128(9, 0), Err(LiquidityPoolError::Overflow));
}

#[test]
fn shares_outstanding_match_holdings() {
    let mut p = setup();
    p.deposit(ALICE, 2_000).unwrap();
    p.deposit(BOB, 3_000).unwrap();
    p.withdraw(ALICE, 500).unwrap();
    let holdings: i128 = p.lp_shares.values().sum();
    assert_eq!(p.total_shares, holdings + DEAD_SHARES_AMOUNT);
    p.withdraw(ALICE, p.get_lp_shares(ALICE)).unwrap();
    p.withdraw(BOB, p.get_lp_shares(BOB)).unwrap();
    assert_eq!(p.total_shares, DEAD_SHARES_AMOUNT);
}

#[test]
fn no_provider_owns_the_dead_shares() {
    let mut p = setup();
    p.deposit(ALICE, 1_000).unwrap();
    assert!(p.get_lp_shares(ALICE) + DEAD_SHARES_AMOUNT <= p.total_shares);
    p.distribute_interest(CREDITLINE, 1_000).unwrap();
    p.deposit(BOB, 5_000).unwrap();
    assert!(p.get_lp_shares(BOB) + DEAD_SHARES_AMOUNT <= p.total_shares);
    assert_eq!(p.total_shares, p.get_lp_shares(ALICE) + p.get_lp_shares(BOB) + DEAD_SHARES_AMOUNT);
}

#[test]
fn outflow_window_is_shared_within_a_ledger() {
    let mut p = setup();
    p.deposit(ALICE, 10_000).unwrap();
    p.set_outflow_cap_bps(ADMIN, 1_000).unwrap();
    p.fund_loan(CREDITLINE, SHOP, 500, 7, true).unwrap();
    assert_eq!(p.fund_loan(CREDITLINE, SHOP, 451, 7, true).err(), Some(LiquidityPoolError::OutflowCapExceeded));
    assert!(p.fund_loan(CREDITLINE, SHOP, 450, 7, true).is_ok());
}

#[test]
fn outflow_window_resets_on_a_new_ledger() {
    let mut p = setup();
    p.deposit(ALICE, 10_000).unwrap();
    p.set_outflow_cap_bps(ADMIN, 1_000).unwrap();
    p.fund_loan(CREDITLINE, SHOP, 500, 7, true).unwrap();
    assert_eq!(p.fund_loan(CREDITLINE, SHOP, 951, 8, true).err(), Some(LiquidityPoolError::OutflowCapExceeded));
    assert!(p.fund_loan(CREDITLINE, SHOP, 950, 8, true).is_ok());
}

#[test]
fn replaying_stored_holdings_rebuilds_the_share_total() {
    let mut p = setup();
    p.deposit(ALICE, 1_000).unwrap();
    p.deposit(BOB, 2_000).unwrap();
    let mut r = LiquidityPoolContract::new();
    assert!(r.restore_lp_shares(ALICE, p.get_lp_shares(ALICE)));
    assert!(r.restore_lp_shares(BOB, p.get_lp_shares(BOB)));
    assert!(!r.restore_lp_shares(BOB, 1));
    assert!(r.restore_share_total(p.total_shares));
    assert!(!r.restore_share_total(p.total_shares + 1));
    assert!(r.restore_accounts(3_000, 0, 0, 0, 0, 0));
    assert!(!r.restore_accounts(3_000, 3_001, 0, 0, 0, 0));
    assert_eq!(r.total_shares, 3_000 + DEAD_SHARES_AMOUNT);
    let mut empty = LiquidityPoolContract::new();
    assert!(empty.restore_share_total(DEAD_SHARES_AMOUNT));
    assert!(empty.restore_merchant_funded(SHOP, 10));
    assert!(!empty.restore_merchant_funded(SHOP, 10));
}

#[test]
fn absorbing_a_loss_never_raises_the_share_price() {
    let mut p = setup();
    p.deposit(ALICE, 10_000).unwrap();
    p.fund_loan(CREDITLINE, SHOP, 1_000, 1, true).unwrap();
    let before = p.get_share_price().unwrap();
    p.absorb_loss(CREDITLINE, 500).unwrap();
    let after = p.get_share_price().unwrap();
    assert!(after <= before);
    assert_eq!(p.total_liquidity, 9_500);
    assert_eq!(p.locked_liquidity, 500);
}
