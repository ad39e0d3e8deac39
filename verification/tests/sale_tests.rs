use vesting_ido::allocation::AccountDetailedView;
use vesting_ido::allocation::AllocationLedger;
use vesting_ido::allocation::AssetView;
use vesting_ido::allocation::PRICE_SCALE;
use vesting_ido::errors::Error;
use vesting_ido::tier::Tier;

const E18: u128 = 1_000_000_000_000_000_000;

const OWNER: u64 = 1;
const STAKING: u64 = 2;
const PAYMENT: u64 = 3;
const DANGEL: u64 = 4;
const ALICE: u64 = 10;
const BOB: u64 = 11;

const REG_START: u64 = 100;
const REG_END: u64 = 200;
const SALE_START: u64 = 300;
const SALE_END: u64 = 400;
const IN_REG: u64 = 150;
const IN_SALE: u64 = 350;

fn ledger(total_ido: u128, ido_price: u128, rate: u32) -> AllocationLedger {
    AllocationLedger::new(
        OWNER, total_ido, STAKING, PAYMENT, DANGEL, ido_price, REG_START, REG_END, SALE_START,
        SALE_END, rate,
    )
}

fn oracle(token_id: u64, balance: u128) -> Option<AccountDetailedView> {
    Some(AccountDetailedView { supplied: vec![AssetView { token_id, balance }] })
}

/// A ledger with one participant registered into `Tier1`.
fn ledger_with_alice_tier1(total_ido: u128, ido_price: u128, rate: u32) -> AllocationLedger {
    let mut l = ledger(total_ido, ido_price, rate);
    assert!(l.storage_deposit(ALICE));
    l.register(ALICE, IN_REG).unwrap();
    l.on_get_account(ALICE, oracle(DANGEL, 2_000 * E18)).unwrap();
    l
}

#[test]
fn stats_reflect_construction() {
    let l = ledger(1_000, PRICE_SCALE, 200);
    let s = l.get_stats();
    assert_eq!(s.owner_id, OWNER);
    assert_eq!(s.total_ido, 1_000);
    assert_eq!(s.staking_contract_id, STAKING);
    assert_eq!(s.payment_token_id, PAYMENT);
    assert_eq!(s.dangel_token_id, DANGEL);
    assert_eq!(s.ido_price, PRICE_SCALE);
    assert_eq!(s.total_purchased, 0);
    assert_eq!(s.register_start_timestamp, REG_START);
    assert_eq!(s.register_end_timestamp, REG_END);
    assert_eq!(s.sale_start_timestamp, SALE_START);
    assert_eq!(s.sale_end_timestamp, SALE_END);
    assert_eq!(s.min_tier_cap_rate, 200);
}

#[test]
fn storage_deposit_creates_once() {
    let mut l = ledger(1_000, PRICE_SCALE, 200);
    assert_eq!(l.storage_balance_of(ALICE), 0);
    assert!(l.storage_deposit(ALICE));
    assert_eq!(l.storage_balance_of(ALICE), 1);
    // A second deposit changes nothing.
    assert!(!l.storage_deposit(ALICE));
    let a = l.get_account(ALICE).unwrap();
    assert_eq!(a.purchased_amount, 0);
    assert_eq!(a.tier, Tier::Tier0);
}

#[test]
fn registration_assigns_the_stake_tier() {
    let mut l = ledger(1_000, PRICE_SCALE, 200);
    assert!(l.storage_deposit(ALICE));
    assert_eq!(l.register(ALICE, IN_REG), Ok(()));
    assert_eq!(l.on_get_account(ALICE, oracle(DANGEL, 10_000 * E18)), Ok(10_000 * E18));
    assert_eq!(l.get_account(ALICE).unwrap().tier, Tier::Tier3);
    // The participant was counted into the tier, so the cap exists now.
    assert_eq!(l.get_tier_allocation(Tier::Tier3), Ok(1_000));
}

#[test]
fn registration_outside_window_rejects() {
    let mut l = ledger(1_000, PRICE_SCALE, 200);
    assert!(l.storage_deposit(ALICE));
    assert_eq!(l.register(ALICE, REG_START), Err(Error::RegistrationClosed));
    assert_eq!(l.register(ALICE, REG_END), Err(Error::RegistrationClosed));
    assert_eq!(l.register(ALICE, 0), Err(Error::RegistrationClosed));
}

#[test]
fn registration_without_deposit_rejects() {
    let mut l = ledger(1_000, PRICE_SCALE, 200);
    assert_eq!(l.register(ALICE, IN_REG), Err(Error::NotFound));
}

#[test]
fn second_registration_before_resolution_rejects() {
    let mut l = ledger(1_000, PRICE_SCALE, 200);
    assert!(l.storage_deposit(ALICE));
    assert_eq!(l.register(ALICE, IN_REG), Ok(()));
    // The same participant cannot start a second registration while the
    // first one is unresolved.
    assert_eq!(l.register(ALICE, IN_REG), Err(Error::OperationInProgress));
    // An unrelated participant is not blocked.
    assert!(l.storage_deposit(BOB));
    assert_eq!(l.register(BOB, IN_REG), Ok(()));
}

#[test]
fn registration_after_success_rejects() {
    let mut l = ledger_with_alice_tier1(1_000, PRICE_SCALE, 200);
    assert_eq!(l.register(ALICE, IN_REG), Err(Error::AlreadyRegistered));
}

#[test]
fn second_resolution_rejects() {
    let mut l = ledger_with_alice_tier1(1_000, PRICE_SCALE, 200);
    assert_eq!(
        l.on_get_account(ALICE, oracle(DANGEL, 2_000 * E18)),
        Err(Error::DuplicateResolution)
    );
}

#[test]
fn wrong_token_clears_the_lock() {
    let mut l = ledger(1_000, PRICE_SCALE, 200);
    assert!(l.storage_deposit(ALICE));
    assert_eq!(l.register(ALICE, IN_REG), Ok(()));
    assert_eq!(l.on_get_account(ALICE, oracle(PAYMENT, 2_000 * E18)), Err(Error::WrongToken));
    assert_eq!(l.get_account(ALICE).unwrap().tier, Tier::Tier0);
    // The lock is gone: the participant may try again.
    assert_eq!(l.register(ALICE, IN_REG), Ok(()));
    // An answer with no assets is a wrong token too.
    assert_eq!(
        l.on_get_account(ALICE, Some(AccountDetailedView { supplied: vec![] })),
        Err(Error::WrongToken)
    );
}

#[test]
fn insufficient_stake_stays_untiered() {
    let mut l = ledger(1_000, PRICE_SCALE, 200);
    assert!(l.storage_deposit(ALICE));
    assert_eq!(l.register(ALICE, IN_REG), Ok(()));
    assert_eq!(
        l.on_get_account(ALICE, oracle(DANGEL, 2_000 * E18 - 1)),
        Err(Error::InsufficientStake)
    );
    assert_eq!(l.get_account(ALICE).unwrap().tier, Tier::Tier0);
}

#[test]
fn failed_oracle_call_clears_the_lock() {
    let mut l = ledger(1_000, PRICE_SCALE, 200);
    assert!(l.storage_deposit(ALICE));
    assert_eq!(l.register(ALICE, IN_REG), Ok(()));
    assert_eq!(l.on_get_account(ALICE, None), Err(Error::ExternalCallFailed));
    assert_eq!(l.get_account(ALICE).unwrap().tier, Tier::Tier0);
    assert_eq!(l.register(ALICE, IN_REG), Ok(()));
}

#[test]
fn purchase_lands_between_the_caps() {
    // One Tier1 participant: total weight 1, cap = 1000, min cap = 100.
    let mut l = ledger_with_alice_tier1(1_000, PRICE_SCALE, 100);
    assert_eq!(l.get_tier_allocation(Tier::Tier1), Ok(1_000));
    assert_eq!(l.get_min_tier_cap(Tier::Tier1), Ok(100));
    // At a price of one token per payment unit, 500 payment buys 500.
    assert_eq!(l.purchase(ALICE, 500, IN_SALE), Ok(500));
    assert_eq!(l.get_account(ALICE).unwrap().purchased_amount, 500);
    assert_eq!(l.get_stats().total_purchased, 500);
}

#[test]
fn purchase_cap_bounds_are_strict() {
    let mut l = ledger_with_alice_tier1(1_000, PRICE_SCALE, 100);
    // Landing exactly on the minimum cap is rejected.
    assert_eq!(l.purchase(ALICE, 100, IN_SALE), Err(Error::BelowMinimumCap));
    assert_eq!(l.purchase(ALICE, 99, IN_SALE), Err(Error::BelowMinimumCap));
    // Landing exactly on the maximum cap is rejected as well.
    assert_eq!(l.purchase(ALICE, 1_000, IN_SALE), Err(Error::AboveMaximumCap));
    assert_eq!(l.purchase(ALICE, 1_001, IN_SALE), Err(Error::AboveMaximumCap));
    // Nothing changed on any rejection.
    assert_eq!(l.get_account(ALICE).unwrap().purchased_amount, 0);
    assert_eq!(l.get_stats().total_purchased, 0);
    // One past the minimum cap and one short of the maximum both pass.
    assert_eq!(l.purchase(ALICE, 101, IN_SALE), Ok(101));
    assert_eq!(l.purchase(ALICE, 898, IN_SALE), Ok(898));
    assert_eq!(l.get_account(ALICE).unwrap().purchased_amount, 999);
}

#[test]
fn purchase_converts_at_the_fixed_point_price() {
    // Two tokens per payment unit: price is half the scale.
    let mut l = ledger_with_alice_tier1(10_000, PRICE_SCALE / 2, 100);
    // cap = 10000, min cap = 1000; payment 600 buys 1200 tokens.
    assert_eq!(l.purchase(ALICE, 600, IN_SALE), Ok(1_200));
    assert_eq!(l.get_account(ALICE).unwrap().purchased_amount, 1_200);
}

#[test]
fn purchase_outside_window_rejects() {
    let mut l = ledger_with_alice_tier1(1_000, PRICE_SCALE, 100);
    assert_eq!(l.purchase(ALICE, 500, SALE_START), Err(Error::SaleClosed));
    assert_eq!(l.purchase(ALICE, 500, SALE_END), Err(Error::SaleClosed));
    assert_eq!(l.purchase(ALICE, 500, IN_REG), Err(Error::SaleClosed));
}

#[test]
fn purchase_unregistered_rejects() {
    let mut l = ledger(1_000, PRICE_SCALE, 100);
    assert_eq!(l.purchase(ALICE, 500, IN_SALE), Err(Error::NotRegistered));
    // A deposited but untiered participant is rejected the same way.
    assert!(l.storage_deposit(ALICE));
    assert_eq!(l.purchase(ALICE, 500, IN_SALE), Err(Error::NotRegistered));
}

#[test]
fn purchase_while_registration_pending_rejects() {
    let mut l = ledger_with_alice_tier1(1_000, PRICE_SCALE, 100);
    assert!(l.storage_deposit(BOB));
    l.register(BOB, IN_REG).unwrap();
    assert_eq!(l.purchase(BOB, 500, IN_SALE), Err(Error::OperationInProgress));
}

#[test]
fn purchase_zero_price_rejects() {
    let mut l = ledger_with_alice_tier1(1_000, 0, 100);
    assert_eq!(l.purchase(ALICE, 500, IN_SALE), Err(Error::DivisionByZero));
}

#[test]
fn purchase_payment_overflow_rejects() {
    let mut l = ledger_with_alice_tier1(1_000, PRICE_SCALE, 100);
    assert_eq!(l.purchase(ALICE, u128::MAX, IN_SALE), Err(Error::ArithmeticOverflow));
}

#[test]
fn ft_on_transfer_purchases_on_empty_message() {
    let mut l = ledger_with_alice_tier1(1_000, PRICE_SCALE, 100);
    assert_eq!(l.ft_on_transfer(ALICE, 500, String::new(), IN_SALE), Ok(0));
    assert_eq!(l.get_account(ALICE).unwrap().purchased_amount, 500);
    // A message routes the transfer elsewhere: no purchase.
    assert_eq!(l.ft_on_transfer(ALICE, 200, String::from("memo"), IN_SALE), Ok(0));
    assert_eq!(l.get_account(ALICE).unwrap().purchased_amount, 500);
    // A failing purchase surfaces its error.
    assert_eq!(
        l.ft_on_transfer(ALICE, 600, String::new(), IN_SALE),
        Err(Error::AboveMaximumCap)
    );
    assert_eq!(l.get_account(ALICE).unwrap().purchased_amount, 500);
}

#[test]
fn tier_allocation_without_participants_rejects() {
    let l = ledger(1_000, PRICE_SCALE, 100);
    assert_eq!(l.get_tier_allocation(Tier::Tier1), Err(Error::NoParticipants));
    assert_eq!(l.get_min_tier_cap(Tier::Tier1), Err(Error::NoParticipants));
}

#[test]
fn default_tier_configs_view() {
    let l = ledger(1_000, PRICE_SCALE, 100);
    let t = l.get_tier_configs();
    assert_eq!(t.len(), 8);
    assert_eq!(t[1].min_point, 2_000 * E18);
    assert_eq!(t[7].pool_weight, 52);
}
