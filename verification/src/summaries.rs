//! Summaries of the pool's request actions on a user's positions: each one picks a
//! reserve and a positive amount (any such choice is allowed, so both are arguments)
//! and changes one position map by it.
use vstd::prelude::*;
use crate::balances::{
    amount_or_zero, balance_entries, balance_is_typed, balance_set, balance_typed, get_or_zero,
};
use crate::model::CheckModel;
use crate::positions::{PositionsView, User};
use crate::rules::needs_health_check;

verus! {

/// `p` with its supply entry for `reserve` set to `value`.
pub open spec fn with_supply(p: PositionsView, reserve: u32, value: i128) -> PositionsView {
    PositionsView { supply: p.supply.insert(reserve, value), ..p }
}

/// `p` with its collateral entry for `reserve` set to `value`.
pub open spec fn with_collateral(p: PositionsView, reserve: u32, value: i128) -> PositionsView {
    PositionsView { collateral: p.collateral.insert(reserve, value), ..p }
}

/// `p` with its liability entry for `reserve` set to `value`.
pub open spec fn with_liability(p: PositionsView, reserve: u32, value: i128) -> PositionsView {
    PositionsView { liabilities: p.liabilities.insert(reserve, value), ..p }
}

/// A supply of `amount` to `reserve`: the user's supply entry there becomes `amount`.
pub fn build_supply(from_state: &mut User, reserve: u32, amount: i128)
    requires
        amount > 0,
    ensures
        final(from_state)@ == with_supply(old(from_state)@, reserve, amount),
        final(from_state).positions.liabilities == old(from_state).positions.liabilities,
        final(from_state).positions.collateral == old(from_state).positions.collateral,
        old(from_state).positions.typed() ==> final(from_state).positions.typed(),
        final(from_state).positions.health_maps_typed() == old(from_state).positions.health_maps_typed(),
{
    balance_set(&mut from_state.positions.supply, reserve, amount);
}

/// A withdrawal of `amount` from `reserve`: the user's supply entry there becomes
/// `amount`.
pub fn build_withdraw(from_state: &mut User, reserve: u32, amount: i128)
    requires
        amount > 0,
    ensures
        final(from_state)@ == with_supply(old(from_state)@, reserve, amount),
        final(from_state).positions.liabilities == old(from_state).positions.liabilities,
        final(from_state).positions.collateral == old(from_state).positions.collateral,
        old(from_state).positions.typed() ==> final(from_state).positions.typed(),
        final(from_state).positions.health_maps_typed() == old(from_state).positions.health_maps_typed(),
{
    balance_set(&mut from_state.positions.supply, reserve, amount);
}

/// A collateral supply of `amount` to `reserve`: the collateral there grows by
/// `amount`.
pub fn build_supply_collateral(from_state: &mut User, reserve: u32, amount: i128)
    requires
        amount > 0,
        balance_typed(old(from_state).positions.collateral),
        amount_or_zero(old(from_state)@.collateral, reserve) + amount <= i128::MAX,
    ensures
        final(from_state)@ == with_collateral(
            old(from_state)@,
            reserve,
            (amount_or_zero(old(from_state)@.collateral, reserve) + amount) as i128,
        ),
        final(from_state).positions.liabilities == old(from_state).positions.liabilities,
        final(from_state).positions.supply == old(from_state).positions.supply,
        old(from_state).positions.typed() ==> final(from_state).positions.typed(),
        old(from_state).positions.health_maps_typed() ==> final(from_state).positions.health_maps_typed(),
{
    let orig = get_or_zero(&from_state.positions.collateral, reserve);
    balance_set(&mut from_state.positions.collateral, reserve, orig + amount);
}

/// A collateral withdrawal of `amount` from `reserve`: the collateral there shrinks
/// by `amount`.
pub fn build_withdraw_collateral(from_state: &mut User, reserve: u32, amount: i128)
    requires
        amount > 0,
        balance_typed(old(from_state).positions.collateral),
        amount_or_zero(old(from_state)@.collateral, reserve) - amount >= i128::MIN,
    ensures
        final(from_state)@ == with_collateral(
            old(from_state)@,
            reserve,
            (amount_or_zero(old(from_state)@.collateral, reserve) - amount) as i128,
        ),
        final(from_state).positions.liabilities == old(from_state).positions.liabilities,
        final(from_state).positions.supply == old(from_state).positions.supply,
        old(from_state).positions.typed() ==> final(from_state).positions.typed(),
        old(from_state).positions.health_maps_typed() ==> final(from_state).positions.health_maps_typed(),
{
    let orig = get_or_zero(&from_state.positions.collateral, reserve);
    balance_set(&mut from_state.positions.collateral, reserve, orig - amount);
}

/// A borrow of `amount` from `reserve`: the debt there grows by `amount`.
pub fn build_borrow(from_state: &mut User, reserve: u32, amount: i128)
    requires
        amount > 0,
        balance_typed(old(from_state).positions.liabilities),
        amount_or_zero(old(from_state)@.liabilities, reserve) + amount <= i128::MAX,
    ensures
        final(from_state)@ == with_liability(
            old(from_state)@,
            reserve,
            (amount_or_zero(old(from_state)@.liabilities, reserve) + amount) as i128,
        ),
        final(from_state).positions.collateral == old(from_state).positions.collateral,
        final(from_state).positions.supply == old(from_state).positions.supply,
        old(from_state).positions.typed() ==> final(from_state).positions.typed(),
        old(from_state).positions.health_maps_typed() ==> final(from_state).positions.health_maps_typed(),
{
    let orig = get_or_zero(&from_state.positions.liabilities, reserve);
    balance_set(&mut from_state.positions.liabilities, reserve, orig + amount);
}

/// A repayment of `amount` to `reserve`: the debt there shrinks by `amount`.
pub fn build_repay(from_state: &mut User, reserve: u32, amount: i128)
    requires
        amount > 0,
        balance_typed(old(from_state).positions.liabilities),
        amount_or_zero(old(from_state)@.liabilities, reserve) - amount >= i128::MIN,
    ensures
        final(from_state)@ == with_liability(
            old(from_state)@,
            reserve,
            (amount_or_zero(old(from_state)@.liabilities, reserve) - amount) as i128,
        ),
        final(from_state).positions.collateral == old(from_state).positions.collateral,
        final(from_state).positions.supply == old(from_state).positions.supply,
        old(from_state).positions.typed() ==> final(from_state).positions.typed(),
        old(from_state).positions.health_maps_typed() ==> final(from_state).positions.health_maps_typed(),
{
    let orig = get_or_zero(&from_state.positions.liabilities, reserve);
    balance_set(&mut from_state.positions.liabilities, reserve, orig - amount);
}

/// `build_supply_collateral` where the collateral map holds only `u32` keys and `i128` values and the new
/// amount fits in an `i128`; otherwise the user stays as it is and the answer is
/// `false`.
pub fn try_build_supply_collateral(from_state: &mut User, reserve: u32, amount: i128) -> (r: bool)
    requires
        amount > 0,
    ensures
        r == (balance_typed(old(from_state).positions.collateral) && i128::MIN <= amount_or_zero(
            old(from_state)@.collateral,
            reserve,
        ) + amount <= i128::MAX),
        r ==> final(from_state)@ == with_collateral(
            old(from_state)@,
            reserve,
            (amount_or_zero(old(from_state)@.collateral, reserve) + amount) as i128,
        ),
        r ==> final(from_state).positions.liabilities == old(from_state).positions.liabilities,
        r ==> final(from_state).positions.supply == old(from_state).positions.supply,
        r ==> (old(from_state).positions.typed() ==> final(from_state).positions.typed()),
        r ==> (old(from_state).positions.health_maps_typed() ==> final(from_state).positions.health_maps_typed()),
        !r ==> *final(from_state) == *old(from_state),
{
    if !balance_is_typed(&from_state.positions.collateral) {
        return false;
    }
    let orig = get_or_zero(&from_state.positions.collateral, reserve);
    match orig.checked_add(amount) {
        Some(_) => {
            build_supply_collateral(from_state, reserve, amount);
            true
        },
        None => false,
    }
}

/// `build_withdraw_collateral` where the collateral map holds only `u32` keys and `i128` values and the new
/// amount fits in an `i128`; otherwise the user stays as it is and the answer is
/// `false`.
pub fn try_build_withdraw_collateral(from_state: &mut User, reserve: u32, amount: i128) -> (r: bool)
    requires
        amount > 0,
    ensures
        r == (balance_typed(old(from_state).positions.collateral) && i128::MIN <= amount_or_zero(
            old(from_state)@.collateral,
            reserve,
        ) - amount <= i128::MAX),
        r ==> final(from_state)@ == with_collateral(
            old(from_state)@,
            reserve,
            (amount_or_zero(old(from_state)@.collateral, reserve) - amount) as i128,
        ),
        r ==> final(from_state).positions.liabilities == old(from_state).positions.liabilities,
        r ==> final(from_state).positions.supply == old(from_state).positions.supply,
        r ==> (old(from_state).positions.typed() ==> final(from_state).positions.typed()),
        r ==> (old(from_state).positions.health_maps_typed() ==> final(from_state).positions.health_maps_typed()),
        !r ==> *final(from_state) == *old(from_state),
{
    if !balance_is_typed(&from_state.positions.collateral) {
        return false;
    }
    let orig = get_or_zero(&from_state.positions.collateral, reserve);
    match orig.checked_sub(amount) {
        Some(_) => {
            build_withdraw_collateral(from_state, reserve, amount);
            true
        },
        None => false,
    }
}

/// `build_borrow` where the liabilities map holds only `u32` keys and `i128` values and the new
/// amount fits in an `i128`; otherwise the user stays as it is and the answer is
/// `false`.
pub fn try_build_borrow(from_state: &mut User, reserve: u32, amount: i128) -> (r: bool)
    requires
        amount > 0,
    ensures
        r == (balance_typed(old(from_state).positions.liabilities) && i128::MIN <= amount_or_zero(
            old(from_state)@.liabilities,
            reserve,
        ) + amount <= i128::MAX),
        r ==> final(from_state)@ == with_liability(
            old(from_state)@,
            reserve,
            (amount_or_zero(old(from_state)@.liabilities, reserve) + amount) as i128,
        ),
        r ==> final(from_state).positions.collateral == old(from_state).positions.collateral,
        r ==> final(from_state).positions.supply == old(from_state).positions.supply,
        r ==> (old(from_state).positions.typed() ==> final(from_state).positions.typed()),
        r ==> (old(from_state).positions.health_maps_typed() ==> final(from_state).positions.health_maps_typed()),
        !r ==> *final(from_state) == *old(from_state),
{
    if !balance_is_typed(&from_state.positions.liabilities) {
        return false;
    }
    let orig = get_or_zero(&from_state.positions.liabilities, reserve);
    match orig.checked_add(amount) {
        Some(_) => {
            build_borrow(from_state, reserve, amount);
            true
        },
        None => false,
    }
}

/// `build_repay` where the liabilities map holds only `u32` keys and `i128` values and the new
/// amount fits in an `i128`; otherwise the user stays as it is and the answer is
/// `false`.
pub fn try_build_repay(from_state: &mut User, reserve: u32, amount: i128) -> (r: bool)
    requires
        amount > 0,
    ensures
        r == (balance_typed(old(from_state).positions.liabilities) && i128::MIN <= amount_or_zero(
            old(from_state)@.liabilities,
            reserve,
        ) - amount <= i128::MAX),
        r ==> final(from_state)@ == with_liability(
            old(from_state)@,
            reserve,
            (amount_or_zero(old(from_state)@.liabilities, reserve) - amount) as i128,
        ),
        r ==> final(from_state).positions.collateral == old(from_state).positions.collateral,
        r ==> final(from_state).positions.supply == old(from_state).positions.supply,
        r ==> (old(from_state).positions.typed() ==> final(from_state).positions.typed()),
        r ==> (old(from_state).positions.health_maps_typed() ==> final(from_state).positions.health_maps_typed()),
        !r ==> *final(from_state) == *old(from_state),
{
    if !balance_is_typed(&from_state.positions.liabilities) {
        return false;
    }
    let orig = get_or_zero(&from_state.positions.liabilities, reserve);
    match orig.checked_sub(amount) {
        Some(_) => {
            build_repay(from_state, reserve, amount);
            true
        },
        None => false,
    }
}

/// Filling a user liquidation auction: the user's collateral and liabilities become
/// the given maps (any maps are possible), its supply stays.
pub fn build_fill_user_liquidation_auction(
    from_state: &mut User,
    collateral: soroban_sdk::Map<u32, i128>,
    liabilities: soroban_sdk::Map<u32, i128>,
)
    ensures
        final(from_state)@ == (PositionsView {
            collateral: balance_entries(collateral),
            liabilities: balance_entries(liabilities),
            ..old(from_state)@
        }),
        final(from_state).positions.collateral == collateral,
        final(from_state).positions.liabilities == liabilities,
        final(from_state).positions.supply == old(from_state).positions.supply,
{
    from_state.positions.collateral = collateral;
    from_state.positions.liabilities = liabilities;
}

/// Filling a bad-debt auction: the user's collateral and liabilities become the given
/// maps (any maps are possible), its supply stays.
pub fn build_fill_bad_debt_auction(
    from_state: &mut User,
    collateral: soroban_sdk::Map<u32, i128>,
    liabilities: soroban_sdk::Map<u32, i128>,
)
    ensures
        final(from_state)@ == (PositionsView {
            collateral: balance_entries(collateral),
            liabilities: balance_entries(liabilities),
            ..old(from_state)@
        }),
        final(from_state).positions.collateral == collateral,
        final(from_state).positions.liabilities == liabilities,
        final(from_state).positions.supply == old(from_state).positions.supply,
{
    from_state.positions.collateral = collateral;
    from_state.positions.liabilities = liabilities;
}

/// A health-factor check: records in `model` that a check ran, and returns
/// `under`, whether the health factor is under the threshold (either answer is
/// possible).
pub fn positions_hf_under(model: &mut CheckModel, under: bool) -> (r: bool)
    ensures
        r == under,
        final(model)@.checked,
        final(model)@.skolem_i == old(model)@.skolem_i,
{
    model.set_checked();
    under
}

/// Building the actions of a request: the user's positions become `new_state` and
/// the returned flag says whether a health check must follow. Any outcome is
/// possible in which the flag is set or no health check is called for.
pub fn build_actions_from_request(
    model: &CheckModel,
    state: &User,
    new_state: User,
    check_health: bool,
) -> (r: (User, bool))
    requires
        check_health || !needs_health_check(state@, new_state@, model@.skolem_i),
    ensures
        r.0 == new_state,
        r.1 == check_health,
        r.1 || !needs_health_check(state@, r.0@, model@.skolem_i),
{
    (new_state, check_health)
}

} // verus!
