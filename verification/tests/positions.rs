use lending_pool::balances::get_or_zero;
use lending_pool::model::CheckModel;
use lending_pool::positions::{Positions, User};
use lending_pool::rules::{checked_should_check, should_check};
use lending_pool::summaries::{
    build_actions_from_request, build_borrow, build_fill_bad_debt_auction,
    build_fill_user_liquidation_auction, build_repay, build_supply, build_supply_collateral,
    build_withdraw, build_withdraw_collateral, positions_hf_under, try_build_borrow,
    try_build_repay, try_build_supply_collateral, try_build_withdraw_collateral,
};
use soroban_sdk::{Env, IntoVal, TryFromVal};

fn empty_user(env: &Env) -> User {
    User { positions: Positions::new(env) }
}

fn copy_user(u: &User) -> User {
    User {
        positions: Positions {
            liabilities: u.positions.liabilities.clone(),
            collateral: u.positions.collateral.clone(),
            supply: u.positions.supply.clone(),
        },
    }
}

#[test]
fn missing_entry_reads_as_zero() {
    let env = Env::default();
    let mut m: soroban_sdk::Map<u32, i128> = soroban_sdk::Map::new(&env);
    assert_eq!(get_or_zero(&m, 3), 0);
    m.set(3, -17);
    assert_eq!(get_or_zero(&m, 3), -17);
    assert_eq!(get_or_zero(&m, 4), 0);
}

#[test]
fn has_liabilities_reads_debt_entries() {
    let env = Env::default();
    let mut u = empty_user(&env);
    assert!(!u.has_liabilities());
    u.positions.collateral.set(0, 5);
    assert!(!u.has_liabilities());
    u.positions.liabilities.set(0, 0);
    assert!(u.has_liabilities());
}

#[test]
fn model_records_checks() {
    let mut model = CheckModel::init(4, false);
    assert_eq!(model.skolem_i(), 4);
    assert!(!model.get_checked());
    model.set_checked();
    assert!(model.get_checked());
    assert_eq!(model.skolem_i(), 4);
}

#[test]
fn collateral_decrease_with_debt_needs_check() {
    let env = Env::default();
    let model = CheckModel::init(1, false);
    let mut orig = empty_user(&env);
    orig.positions.collateral.set(1, 100);
    orig.positions.liabilities.set(1, 10);
    let mut new = copy_user(&orig);
    new.positions.collateral.set(1, 99);
    assert!(should_check(&orig, &new, &model));
    // another watched reserve sees no change
    let other = CheckModel::init(2, false);
    assert!(!should_check(&orig, &new, &other));
}

#[test]
fn no_debt_needs_no_check() {
    let env = Env::default();
    let model = CheckModel::init(1, false);
    let mut orig = empty_user(&env);
    orig.positions.collateral.set(1, 100);
    let mut new = copy_user(&orig);
    new.positions.collateral.set(1, 0);
    assert!(!should_check(&orig, &new, &model));
}

#[test]
fn liability_increase_needs_check() {
    let env = Env::default();
    let model = CheckModel::init(3, true);
    let orig = empty_user(&env);
    let mut new = copy_user(&orig);
    new.positions.liabilities.set(3, 1);
    assert!(should_check(&orig, &new, &model));
    assert!(!should_check(&new, &new, &model));
}

#[test]
fn supply_summaries_set_supply_entry() {
    let env = Env::default();
    let model = CheckModel::init(2, false);
    let mut u = empty_user(&env);
    u.positions.supply.set(2, 40);
    u.positions.liabilities.set(2, 1);
    let orig = copy_user(&u);
    build_supply(&mut u, 2, 7);
    assert!(!should_check(&orig, &u, &model));
    assert_eq!(u.positions.supply.get(2), Some(7));
    build_withdraw(&mut u, 5, 3);
    assert_eq!(u.positions.supply.get(5), Some(3));
    assert_eq!(u.positions.supply.get(2), Some(7));
    assert!(u.positions.collateral.is_empty());
}

#[test]
fn collateral_and_debt_summaries_move_by_amount() {
    let env = Env::default();
    let model = CheckModel::init(0, false);
    let mut u = empty_user(&env);
    let orig = copy_user(&u);
    build_supply_collateral(&mut u, 0, 50);
    assert_eq!(u.positions.collateral.get(0), Some(50));
    assert!(!should_check(&orig, &u, &model));

    let before_borrow = copy_user(&u);
    build_borrow(&mut u, 0, 20);
    assert_eq!(u.positions.liabilities.get(0), Some(20));
    assert!(should_check(&before_borrow, &u, &model));

    let before_repay = copy_user(&u);
    build_repay(&mut u, 0, 5);
    assert_eq!(u.positions.liabilities.get(0), Some(15));
    assert!(!should_check(&before_repay, &u, &model));

    let before_withdraw = copy_user(&u);
    build_withdraw_collateral(&mut u, 0, 30);
    assert_eq!(u.positions.collateral.get(0), Some(20));
    assert!(should_check(&before_withdraw, &u, &model));
}

#[test]
fn auction_fills_replace_collateral_and_debt() {
    let env = Env::default();
    let mut u = empty_user(&env);
    u.positions.supply.set(1, 9);
    let mut c: soroban_sdk::Map<u32, i128> = soroban_sdk::Map::new(&env);
    c.set(1, 4);
    let mut l: soroban_sdk::Map<u32, i128> = soroban_sdk::Map::new(&env);
    l.set(2, 8);
    build_fill_user_liquidation_auction(&mut u, c.clone(), l.clone());
    assert_eq!(u.positions.collateral.get(1), Some(4));
    assert_eq!(u.positions.liabilities.get(2), Some(8));
    assert_eq!(u.positions.supply.get(1), Some(9));
    build_fill_bad_debt_auction(&mut u, soroban_sdk::Map::new(&env), soroban_sdk::Map::new(&env));
    assert!(u.positions.collateral.is_empty());
    assert!(u.positions.liabilities.is_empty());
}

#[test]
fn health_check_sets_flag_and_request_flow_is_healthy() {
    let env = Env::default();
    let mut model = CheckModel::init(0, false);
    let orig = empty_user(&env);
    let mut new = copy_user(&orig);
    new.positions.liabilities.set(0, 10);
    let (state, check_health) = build_actions_from_request(&model, &orig, new, true);
    assert!(check_health);
    assert!(should_check(&orig, &state, &model));
    assert!(!positions_hf_under(&mut model, false));
    assert!(model.get_checked());
    assert!(model.get_checked() || !should_check(&orig, &state, &model));
}

#[test]
fn new_positions_are_empty() {
    let env = Env::default();
    let p = Positions::new(&env);
    assert!(p.liabilities.is_empty());
    assert!(p.collateral.is_empty());
    assert!(p.supply.is_empty());
}

#[test]
fn debt_entry_of_another_type_still_counts() {
    let env = Env::default();
    let mut u = empty_user(&env);
    // a map handed in from outside may hold entries of other types
    let mut raw: soroban_sdk::Map<soroban_sdk::Val, soroban_sdk::Val> = soroban_sdk::Map::new(&env);
    raw.set(soroban_sdk::Symbol::new(&env, "x").into_val(&env), 1u32.into_val(&env));
    let untyped: soroban_sdk::Map<u32, i128> = soroban_sdk::Map::try_from_val(&env, &raw.to_val()).unwrap();
    u.positions.liabilities = untyped;
    assert!(u.has_liabilities());
    assert!(!u.positions.check_health_maps_typed());
    let model = CheckModel::init(0, false);
    let typed_user = empty_user(&env);
    assert!(typed_user.positions.check_health_maps_typed());
    assert_eq!(checked_should_check(&typed_user, &u, &model), None);
    assert_eq!(checked_should_check(&typed_user, &typed_user, &model), Some(false));
    assert!(!try_build_borrow(&mut u, 0, 5));
    assert!(u.positions.collateral.is_empty());
}

#[test]
fn checked_summaries_refuse_overflow() {
    let env = Env::default();
    let mut u = empty_user(&env);
    assert!(try_build_supply_collateral(&mut u, 1, i128::MAX));
    assert_eq!(u.positions.collateral.get(1), Some(i128::MAX));
    assert!(!try_build_supply_collateral(&mut u, 1, 1));
    assert_eq!(u.positions.collateral.get(1), Some(i128::MAX));
    assert!(try_build_withdraw_collateral(&mut u, 1, 5));
    assert_eq!(u.positions.collateral.get(1), Some(i128::MAX - 5));
    assert!(try_build_repay(&mut u, 2, i128::MAX));
    assert_eq!(u.positions.liabilities.get(2), Some(-i128::MAX));
    assert!(try_build_repay(&mut u, 2, 1));
    assert!(!try_build_repay(&mut u, 2, 1));
    assert_eq!(u.positions.liabilities.get(2), Some(i128::MIN));
    assert!(try_build_borrow(&mut u, 3, 7));
    assert_eq!(u.positions.liabilities.get(3), Some(7));
}
