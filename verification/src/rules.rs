//! When a change of a user's positions calls for a health check.
use vstd::prelude::*;
use crate::balances::{amount_or_zero, get_or_zero};
use crate::model::CheckModel;
use crate::positions::{PositionsView, User};
use crate::summaries::{with_collateral, with_liability, with_supply};

verus! {

/// `state` has debt, and at reserve `idx` either its collateral fell below that of
/// `orig_state` or its debt rose above it (a missing entry counts as zero).
pub open spec fn needs_health_check(orig_state: PositionsView, state: PositionsView, idx: u32) -> bool {
    let collateral_decrease = amount_or_zero(state.collateral, idx) < amount_or_zero(
        orig_state.collateral,
        idx,
    );
    let liabilities_increase = amount_or_zero(state.liabilities, idx) > amount_or_zero(
        orig_state.liabilities,
        idx,
    );
    state.has_liabilities() && (collateral_decrease || liabilities_increase)
}

/// Returns `true` iff `state` has liabilities and, at the model's watched reserve
/// index, either its collateral decreased relative to `orig_state` or its liability
/// increased relative to `orig_state`.
pub fn should_check(orig_state: &User, state: &User, model: &CheckModel) -> (r: bool)
    requires
        orig_state.positions.health_maps_typed(),
        state.positions.health_maps_typed(),
    ensures
        r == needs_health_check(orig_state@, state@, model@.skolem_i),
{
    let idx = model.skolem_i();
    let collateral_decrease_idx = get_or_zero(&state.positions.collateral, idx) < get_or_zero(
        &orig_state.positions.collateral,
        idx,
    );
    let liabilities_increase_idx = get_or_zero(&state.positions.liabilities, idx) > get_or_zero(
        &orig_state.positions.liabilities,
        idx,
    );
    state.has_liabilities() && (collateral_decrease_idx || liabilities_increase_idx)
}

/// `should_check` where both users' collateral and liability maps hold only `u32`
/// keys and `i128` values; `None` where one of them holds an entry of another type.
pub fn checked_should_check(orig_state: &User, state: &User, model: &CheckModel) -> (r: Option<
    bool,
>)
    ensures
        r is Some <==> orig_state.positions.health_maps_typed() && state.positions.health_maps_typed(),
        r matches Some(b) ==> b == needs_health_check(orig_state@, state@, model@.skolem_i),
{
    if orig_state.positions.check_health_maps_typed() && state.positions.check_health_maps_typed() {
        Some(should_check(orig_state, state, model))
    } else {
        None
    }
}

} // verus!

verus! {

/// Leaving the positions as they are never calls for a health check.
pub proof fn lemma_unchanged_needs_no_check(p: PositionsView, idx: u32)
    ensures
        !needs_health_check(p, p, idx),
{
}

/// Changing only the supply entries (supply, withdrawal) never calls for a health
/// check, at any watched reserve.
pub proof fn lemma_supply_change_needs_no_check(
    p: PositionsView,
    reserve: u32,
    value: i128,
    idx: u32,
)
    ensures
        !needs_health_check(p, with_supply(p, reserve, value), idx),
{
}

/// Adding a positive amount to the collateral of a reserve never calls for a health
/// check, at any watched reserve.
pub proof fn lemma_collateral_supply_needs_no_check(
    p: PositionsView,
    reserve: u32,
    amount: i128,
    idx: u32,
)
    requires
        amount > 0,
        amount_or_zero(p.collateral, reserve) + amount <= i128::MAX,
    ensures
        !needs_health_check(
            p,
            with_collateral(p, reserve, (amount_or_zero(p.collateral, reserve) + amount) as i128),
            idx,
        ),
{
}

/// Repaying a positive amount of the debt of a reserve never calls for a health
/// check, at any watched reserve.
pub proof fn lemma_repay_needs_no_check(p: PositionsView, reserve: u32, amount: i128, idx: u32)
    requires
        amount > 0,
        amount_or_zero(p.liabilities, reserve) - amount >= i128::MIN,
    ensures
        !needs_health_check(
            p,
            with_liability(p, reserve, (amount_or_zero(p.liabilities, reserve) - amount) as i128),
            idx,
        ),
{
}

/// Borrowing a positive amount from a reserve calls for a health check exactly when
/// the watched reserve is the one borrowed from.
pub proof fn lemma_borrow_needs_check_at_reserve(
    p: PositionsView,
    reserve: u32,
    amount: i128,
    idx: u32,
)
    requires
        amount > 0,
        amount_or_zero(p.liabilities, reserve) + amount <= i128::MAX,
    ensures
        needs_health_check(
            p,
            with_liability(p, reserve, (amount_or_zero(p.liabilities, reserve) + amount) as i128),
            idx,
        ) <==> idx == reserve,
{
    let q = with_liability(p, reserve, (amount_or_zero(p.liabilities, reserve) + amount) as i128);
    assert(q.liabilities.contains_key(reserve));
}

/// Withdrawing a positive amount of collateral from a reserve calls for a health
/// check exactly when the watched reserve is that one and the user has debt.
pub proof fn lemma_collateral_withdrawal_needs_check_at_reserve(
    p: PositionsView,
    reserve: u32,
    amount: i128,
    idx: u32,
)
    requires
        amount > 0,
        amount_or_zero(p.collateral, reserve) - amount >= i128::MIN,
    ensures
        needs_health_check(
            p,
            with_collateral(p, reserve, (amount_or_zero(p.collateral, reserve) - amount) as i128),
            idx,
        ) <==> (idx == reserve && p.has_liabilities()),
{
}

/// A request whose summary holds (its health flag is set, or no check is called for),
/// followed by a health-factor check whenever the flag is set, leaves the user either
/// checked or in no need of a check.
pub proof fn lemma_request_then_check_is_healthy(
    model: CheckModel,
    orig_state: PositionsView,
    new_state: PositionsView,
    check_health: bool,
    final_model: CheckModel,
)
    requires
        check_health || !needs_health_check(orig_state, new_state, model@.skolem_i),
        final_model@.skolem_i == model@.skolem_i,
        check_health ==> final_model@.checked,
    ensures
        final_model@.checked || !needs_health_check(orig_state, new_state, final_model@.skolem_i),
{
}

/// A user who still has debt and whose collateral at the watched reserve fell needs
/// a health check, whatever happened to its debt (a missing entry counts as zero).
pub proof fn lemma_collateral_drop_with_debt_needs_check(
    orig_state: PositionsView,
    state: PositionsView,
    idx: u32,
)
    requires
        !state.liabilities.dom().is_empty(),
        (if state.collateral.contains_key(idx) { state.collateral[idx] } else { 0 }) < (
        if orig_state.collateral.contains_key(idx) {
            orig_state.collateral[idx]
        } else {
            0
        }),
    ensures
        needs_health_check(orig_state, state, idx),
{
}

/// A user who still has debt and whose debt at the watched reserve rose needs a
/// health check, whatever happened to its collateral.
pub proof fn lemma_debt_rise_needs_check(orig_state: PositionsView, state: PositionsView, idx: u32)
    requires
        !state.liabilities.dom().is_empty(),
        (if state.liabilities.contains_key(idx) { state.liabilities[idx] } else { 0 }) > (
        if orig_state.liabilities.contains_key(idx) {
            orig_state.liabilities[idx]
        } else {
            0
        }),
    ensures
        needs_health_check(orig_state, state, idx),
{
}

/// A user left without any debt entry needs no health check.
pub proof fn lemma_no_debt_needs_no_check(orig_state: PositionsView, state: PositionsView, idx: u32)
    requires
        state.liabilities.dom().is_empty(),
    ensures
        !needs_health_check(orig_state, state, idx),
{
}

/// Where at the watched reserve the collateral did not fall and the debt did not
/// rise, no health check is needed: those two are the only reasons for one.
pub proof fn lemma_no_worse_position_needs_no_check(
    orig_state: PositionsView,
    state: PositionsView,
    idx: u32,
)
    requires
        (if state.collateral.contains_key(idx) { state.collateral[idx] } else { 0 }) >= (
        if orig_state.collateral.contains_key(idx) {
            orig_state.collateral[idx]
        } else {
            0
        }),
        (if state.liabilities.contains_key(idx) { state.liabilities[idx] } else { 0 }) <= (
        if orig_state.liabilities.contains_key(idx) {
            orig_state.liabilities[idx]
        } else {
            0
        }),
    ensures
        !needs_health_check(orig_state, state, idx),
{
}

} // verus!
