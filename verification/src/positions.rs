//! A user's positions in the pool's reserves.
use vstd::prelude::*;
use crate::balances::{balance_entries, balance_is_empty, balance_is_typed, balance_new, balance_typed};

verus! {

/// The amounts a user holds in each reserve, by reserve index.
pub struct Positions {
    /// Debt owed, by reserve index.
    pub liabilities: soroban_sdk::Map<u32, i128>,
    /// Supply pledged as collateral, by reserve index.
    pub collateral: soroban_sdk::Map<u32, i128>,
    /// Supply that is not collateral, by reserve index.
    pub supply: soroban_sdk::Map<u32, i128>,
}

/// The entries of a user's three position maps.
pub struct PositionsView {
    pub liabilities: Map<u32, i128>,
    pub collateral: Map<u32, i128>,
    pub supply: Map<u32, i128>,
}

impl View for Positions {
    type V = PositionsView;

    open spec fn view(&self) -> PositionsView {
        PositionsView {
            liabilities: balance_entries(self.liabilities),
            collateral: balance_entries(self.collateral),
            supply: balance_entries(self.supply),
        }
    }
}

impl Positions {
    /// Whether the maps that health checks read, collateral and liabilities, hold
    /// only `u32` keys and `i128` values.
    pub open spec fn health_maps_typed(&self) -> bool {
        balance_typed(self.collateral) && balance_typed(self.liabilities)
    }

    /// Whether all three maps hold only `u32` keys and `i128` values.
    pub open spec fn typed(&self) -> bool {
        self.health_maps_typed() && balance_typed(self.supply)
    }

    /// Whether collateral and liabilities hold only `u32` keys and `i128` values.
    pub fn check_health_maps_typed(&self) -> (r: bool)
        ensures
            r == self.health_maps_typed(),
    {
        balance_is_typed(&self.collateral) && balance_is_typed(&self.liabilities)
    }

    /// Positions with no entries.
    pub fn new(env: &soroban_sdk::Env) -> (r: Positions)
        ensures
            r@.liabilities.is_empty(),
            r@.collateral.is_empty(),
            r@.supply.is_empty(),
            r.typed(),
    {
        Positions {
            liabilities: balance_new(env),
            collateral: balance_new(env),
            supply: balance_new(env),
        }
    }
}

/// A user of the pool, as far as health checks read it: its positions.
pub struct User {
    pub positions: Positions,
}

impl View for User {
    type V = PositionsView;

    open spec fn view(&self) -> PositionsView {
        self.positions@
    }
}

impl PositionsView {
    /// Whether any debt entry is recorded.
    pub open spec fn has_liabilities(self) -> bool {
        !self.liabilities.is_empty()
    }
}

impl User {
    /// True when the user has an entry in its liabilities. Of a liability map with
    /// entries of other types only, the answer is true while no typed entry exists.
    pub fn has_liabilities(&self) -> (r: bool)
        ensures
            self@.has_liabilities() ==> r,
            balance_typed(self.positions.liabilities) ==> (r == self@.has_liabilities()),
    {
        !balance_is_empty(&self.positions.liabilities)
    }
}

} // verus!
