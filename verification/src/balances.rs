//! The host maps from reserve index to amount that a user's positions are made of.
use vstd::prelude::*;

verus! {

/// The host's ordered map type, carried through the library as an opaque value.
#[verifier::external_type_specification]
#[verifier::external_body]
#[verifier::reject_recursive_types(K)]
#[verifier::reject_recursive_types(V)]
pub struct ExHostMap<K, V>(soroban_sdk::Map<K, V>);

/// The host environment, carried through the library as an opaque value.
#[verifier::external_type_specification]
#[verifier::external_body]
pub struct ExHostEnv(soroban_sdk::Env);

/// A host map from reserve index to amount.
pub type BalanceMap = soroban_sdk::Map<u32, i128>;

/// The entries of a host map whose key is a `u32` and whose value is an `i128`.
/// The host does not check the types of what a map holds: a map handed in from
/// outside may hold entries of other types as well, which this leaves out.
pub uninterp spec fn balance_entries(m: soroban_sdk::Map<u32, i128>) -> Map<u32, i128>;

/// Whether every entry of a host map has a `u32` key and an `i128` value, so that
/// `balance_entries` is all that it holds.
pub uninterp spec fn balance_typed(m: soroban_sdk::Map<u32, i128>) -> bool;

/// The amount that `m` holds for `key`, or zero where it holds none.
pub open spec fn amount_or_zero(m: Map<u32, i128>, key: u32) -> i128 {
    if m.contains_key(key) {
        m[key]
    } else {
        0
    }
}

/// Calls `soroban_sdk::Map::new`: a map with no entries, so every entry (none) is
/// typed.
#[verifier::external_body]
pub(crate) fn balance_new(env: &soroban_sdk::Env) -> (r: BalanceMap)
    ensures
        balance_entries(r).is_empty(),
        balance_typed(r),
{
    soroban_sdk::Map::new(env)
}

/// Calls `soroban_sdk::Map::get`: the value stored under `key`, `None` where the map
/// has no entry for it. The host panics where the value stored under `key` is not an
/// `i128`; the map is required to be typed, which excludes that.
#[verifier::external_body]
pub(crate) fn balance_get(m: &soroban_sdk::Map<u32, i128>, key: u32) -> (r: Option<i128>)
    requires
        balance_typed(*m),
    ensures
        r == (if balance_entries(*m).contains_key(key) {
            Some(balance_entries(*m)[key])
        } else {
            None
        }),
{
    m.get(key)
}

/// Calls `soroban_sdk::Map::set`: afterwards `key` maps to `value`, every other entry
/// is as before, and a typed map stays typed. (Like every host call, it aborts where
/// the host's resource budget runs out; that is not stated.)
#[verifier::external_body]
pub(crate) fn balance_set(m: &mut soroban_sdk::Map<u32, i128>, key: u32, value: i128)
    ensures
        balance_entries(*final(m)) == balance_entries(*old(m)).insert(key, value),
        balance_typed(*old(m)) ==> balance_typed(*final(m)),
{
    m.set(key, value)
}

/// Calls `soroban_sdk::Map::is_empty`, which counts entries of every type: a map
/// without entries has no typed ones, and of a typed map the answer is whether it
/// has any entry.
#[verifier::external_body]
pub(crate) fn balance_is_empty(m: &soroban_sdk::Map<u32, i128>) -> (r: bool)
    ensures
        r ==> balance_entries(*m).is_empty(),
        balance_typed(*m) ==> (r == balance_entries(*m).is_empty()),
{
    m.is_empty()
}

/// Calls `soroban_sdk::Map::try_iter` and runs the iterator over every entry,
/// collecting the converted entries: the collection fails with the host's conversion
/// error exactly where some entry's key is not a `u32` or its value not an `i128`.
/// The answer is whether it succeeded.
#[verifier::external_body]
pub(crate) fn balance_is_typed(m: &soroban_sdk::Map<u32, i128>) -> (r: bool)
    ensures
        r == balance_typed(*m),
{
    m.try_iter().collect::<Result<Vec<(u32, i128)>, soroban_sdk::ConversionError>>().is_ok()
}

/// The amount that `m` holds for `key`, zero where it holds none.
pub fn get_or_zero(m: &soroban_sdk::Map<u32, i128>, key: u32) -> (r: i128)
    requires
        balance_typed(*m),
    ensures
        r == amount_or_zero(balance_entries(*m), key),
{
    match balance_get(m, key) {
        Some(v) => v,
        None => 0,
    }
}

} // verus!
