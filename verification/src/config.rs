//! The admin's entry points that configure the pool and its reserves.
use vstd::prelude::*;
use crate::errors::PoolError;
use crate::ids::{Address, BytesN32};
use crate::reserve::{
    ReserveConfig, ReserveData, ReserveMetadata, MAX_DECIMALS, MAX_REACTIVITY, MAX_TARGET_UTIL,
    SCALAR_7,
};
use crate::storage::{PoolConfig, PoolStore, PoolStoreView, ReserveEntry};

verus! {

/// The backstop take rate must stay below one, with 9 decimals.
pub const BSTOP_RATE_LIMIT: u64 = 1_000_000_000;

/// The status of a freshly initialized pool.
pub const POOL_STATUS_INITIAL: u32 = 1;

/// The pool status under which reserves cannot be updated.
pub const POOL_STATUS_FROZEN: u32 = 2;

/// Checks `metadata` against the bounds of `ReserveMetadata::is_valid`.
pub fn validate_reserve_metadata(metadata: &ReserveMetadata) -> (r: Result<(), PoolError>)
    ensures
        r == (if metadata.is_valid() { Ok(()) } else { Err(PoolError::InvalidReserveMetadata) }),
{
    if metadata.decimals > MAX_DECIMALS || metadata.c_factor > SCALAR_7 || metadata.l_factor
        > SCALAR_7 || metadata.util > MAX_TARGET_UTIL || (metadata.max_util > SCALAR_7
        || metadata.max_util <= metadata.util) || (metadata.r_one > metadata.r_two
        || metadata.r_two > metadata.r_three) || (metadata.reactivity > MAX_REACTIVITY) {
        return Err(PoolError::InvalidReserveMetadata);
    }
    Ok(())
}

/// The stored state after a successful initialization of a pool from `s`.
pub open spec fn initialized(
    s: PoolStoreView,
    admin: Seq<u8>,
    name: Seq<u8>,
    oracle: BytesN32,
    bstop_rate: u64,
    backstop_id: BytesN32,
    b_token_hash: BytesN32,
    d_token_hash: BytesN32,
    blnd_id: BytesN32,
    usdc_id: BytesN32,
) -> PoolStoreView {
    PoolStoreView {
        admin: Some(admin),
        name: Some(name),
        backstop: Some(backstop_id),
        pool_config: Some(PoolConfig { oracle, bstop_rate, status: POOL_STATUS_INITIAL }),
        token_hashes: Some((b_token_hash, d_token_hash)),
        blnd_token: Some(blnd_id),
        usdc_token: Some(usdc_id),
        reserves: s.reserves,
    }
}

/// What `execute_initialize` answers on `s` for a backstop take rate of `bstop_rate`:
/// the first of its refusals that applies, or `Ok`.
pub open spec fn initialize_outcome(s: PoolStoreView, bstop_rate: u64) -> Result<(), PoolError> {
    if s.has_admin() {
        Err(PoolError::AlreadyInitialized)
    } else if bstop_rate >= BSTOP_RATE_LIMIT {
        Err(PoolError::InvalidPoolInitArgs)
    } else {
        Ok(())
    }
}

/// Initializes the pool: stores its admin, name, backstop, configuration (with
/// status 1), token wasm hashes and the BLND and USDC token ids. A pool that has an
/// admin already is refused, and so is a backstop take rate of one or more.
pub fn execute_initialize(
    store: &mut PoolStore,
    admin: &Address,
    name: &Vec<u8>,
    oracle: &BytesN32,
    bstop_rate: &u64,
    backstop_id: &BytesN32,
    b_token_hash: &BytesN32,
    d_token_hash: &BytesN32,
    blnd_id: &BytesN32,
    usdc_id: &BytesN32,
) -> (r: Result<(), PoolError>)
    ensures
        r == initialize_outcome(old(store)@, *bstop_rate),
        r is Err ==> final(store)@ == old(store)@,
        r is Ok ==> final(store)@ == initialized(
            old(store)@,
            admin@,
            name@,
            *oracle,
            *bstop_rate,
            *backstop_id,
            *b_token_hash,
            *d_token_hash,
            *blnd_id,
            *usdc_id,
        ),
{
    if store.admin().is_some() {
        return Err(PoolError::AlreadyInitialized);
    }
    if *bstop_rate >= BSTOP_RATE_LIMIT {
        return Err(PoolError::InvalidPoolInitArgs);
    }
    store.set_admin(admin);
    store.set_name(name);
    store.set_backstop(backstop_id);
    store.set_pool_config(
        &PoolConfig { oracle: *oracle, bstop_rate: *bstop_rate, status: POOL_STATUS_INITIAL },
    );
    store.set_token_hashes(b_token_hash, d_token_hash);
    store.set_blnd_token(blnd_id);
    store.set_usdc_token(usdc_id);
    Ok(())
}


/// The salts and wasm hashes from which a new reserve's two token contracts are
/// deployed.
#[derive(Clone, Copy, Debug, PartialEq, Eq)]
pub struct ReserveDeployment {
    /// The asset id with its first byte set to 0.
    pub b_token_salt: BytesN32,
    /// The asset id with its first byte set to 1.
    pub d_token_salt: BytesN32,
    pub b_token_hash: BytesN32,
    pub d_token_hash: BytesN32,
}

/// What `initialize_reserve` answers on `s`: the first of its refusals that applies,
/// or `Ok`.
pub open spec fn initialize_reserve_outcome(
    s: PoolStoreView,
    from: Address,
    asset: BytesN32,
    metadata: ReserveMetadata,
) -> Result<(), PoolError> {
    if from@ != s.admin->0 {
        Err(PoolError::NotAuthorized)
    } else if s.has_reserve(asset@) {
        Err(PoolError::AlreadyInitialized)
    } else if !metadata.is_valid() {
        Err(PoolError::InvalidReserveMetadata)
    } else {
        Ok(())
    }
}

/// Checks a request of `from` to add a reserve for `asset` and, where it may go on,
/// gives the salts and wasm hashes of the reserve's supply and debt token contracts.
/// Only the admin may add a reserve, once per asset, with valid metadata.
pub fn initialize_reserve(
    store: &PoolStore,
    from: &Address,
    asset: &BytesN32,
    metadata: &ReserveMetadata,
) -> (r: Result<ReserveDeployment, PoolError>)
    requires
        store@.has_admin(),
        initialize_reserve_outcome(store@, *from, *asset, *metadata) is Ok
            ==> store@.token_hashes is Some,
    ensures
        r is Ok <==> initialize_reserve_outcome(store@, *from, *asset, *metadata) is Ok,
        r matches Err(e) ==> initialize_reserve_outcome(store@, *from, *asset, *metadata) == Err::<
            (),
            PoolError,
        >(e),
        r matches Ok(d) ==> {
            &&& d.b_token_salt@ == asset@.update(0, 0u8)
            &&& d.d_token_salt@ == asset@.update(0, 1u8)
            &&& store@.token_hashes == Some((d.b_token_hash, d.d_token_hash))
        },
{
    let admin = store.admin().unwrap();
    if !from.same_as(&admin) {
        return Err(PoolError::NotAuthorized);
    }
    if store.find_reserve(asset).is_some() {
        return Err(PoolError::AlreadyInitialized);
    }
    match validate_reserve_metadata(metadata) {
        Err(e) => { return Err(e); },
        Ok(()) => {},
    }
    let (b_token_hash, d_token_hash) = store.token_hashes().unwrap();
    Ok(ReserveDeployment {
        b_token_salt: asset.with_byte(0, 0),
        d_token_salt: asset.with_byte(0, 1),
        b_token_hash,
        d_token_hash,
    })
}

/// The d_rate and ir_mod of a new reserve: one, with 9 decimals.
pub const INITIAL_RATE: i128 = 1_000_000_000;

/// The reserve that `register_reserve` adds.
pub open spec fn new_reserve(
    asset: BytesN32,
    metadata: ReserveMetadata,
    b_token: BytesN32,
    d_token: BytesN32,
    index: u32,
    timestamp: u64,
) -> ReserveEntry {
    ReserveEntry {
        asset,
        config: ReserveConfig {
            b_token,
            d_token,
            index,
            decimals: metadata.decimals,
            c_factor: metadata.c_factor,
            l_factor: metadata.l_factor,
            util: metadata.util,
            max_util: metadata.max_util,
            r_one: metadata.r_one,
            r_two: metadata.r_two,
            r_three: metadata.r_three,
            reactivity: metadata.reactivity,
        },
        data: ReserveData {
            d_rate: INITIAL_RATE,
            ir_mod: INITIAL_RATE,
            d_supply: 0,
            b_supply: 0,
            last_time: timestamp,
        },
    }
}

/// Appends the reserve of `asset`, served by the deployed `b_token` and `d_token`
/// contracts, to the reserve list, with the given metadata, rates of one, empty
/// supplies and `timestamp` as its last accrual time. Returns its index.
pub fn register_reserve(
    store: &mut PoolStore,
    asset: &BytesN32,
    metadata: &ReserveMetadata,
    b_token: &BytesN32,
    d_token: &BytesN32,
    timestamp: u64,
) -> (index: u32)
    requires
        metadata.is_valid(),
        !old(store)@.has_reserve(asset@),
        old(store)@.reserves.len() < u32::MAX,
    ensures
        index == old(store)@.reserves.len(),
        final(store)@ == (PoolStoreView {
            reserves: old(store)@.reserves.push(
                new_reserve(*asset, *metadata, *b_token, *d_token, index, timestamp),
            ),
            ..old(store)@
        }),
        final(store)@.well_formed(),
{
    let index = store.reserve_count() as u32;
    let entry = ReserveEntry {
        asset: *asset,
        config: ReserveConfig {
            b_token: *b_token,
            d_token: *d_token,
            index,
            decimals: metadata.decimals,
            c_factor: metadata.c_factor,
            l_factor: metadata.l_factor,
            util: metadata.util,
            max_util: metadata.max_util,
            r_one: metadata.r_one,
            r_two: metadata.r_two,
            r_three: metadata.r_three,
            reactivity: metadata.reactivity,
        },
        data: ReserveData {
            d_rate: INITIAL_RATE,
            ir_mod: INITIAL_RATE,
            d_supply: 0,
            b_supply: 0,
            last_time: timestamp,
        },
    };
    store.push_reserve(entry);
    proof {
        use_type_invariant(&*store);
    }
    index
}


/// The decimals of a reserve's supply and debt tokens.
pub const TOKEN_DECIMALS: u32 = 7;

/// The arguments with which a reserve token contract is initialized.
pub struct TokenInit {
    pub decimals: u32,
    pub name: Vec<u8>,
    pub symbol: Vec<u8>,
}

/// The bytes of "Blend supply token for ", in ASCII.
pub open spec fn supply_name_prefix() -> Seq<u8> {
    seq![
        66u8, 108, 101, 110, 100, 32, 115, 117, 112, 112, 108, 121, 32, 116, 111, 107, 101,
        110, 32, 102, 111, 114, 32,
    ]
}

/// The byte of "b", in ASCII: the prefix of a supply token's symbol.
pub open spec fn supply_symbol_prefix() -> Seq<u8> {
    seq![98u8]
}

/// `prefix` followed by the bytes of `suffix`.
fn prefixed(prefix: Vec<u8>, suffix: &Vec<u8>) -> (r: Vec<u8>)
    ensures
        r@ == prefix@ + suffix@,
{
    let mut r = prefix;
    let ghost start = r@;
    let mut i: usize = 0;
    while i < suffix.len()
        invariant
            i <= suffix.len(),
            r@ == start + suffix@.subrange(0, i as int),
        decreases suffix.len() - i,
    {
        r.push(suffix[i]);
        i = i + 1;
        proof {
            assert(start + suffix@.subrange(0, i as int) =~= (start + suffix@.subrange(0, i - 1)).push(suffix@[i - 1]));
        }
    }
    assert(suffix@.subrange(0, suffix@.len() as int) =~= suffix@);
    r
}

/// The initialization arguments of a new reserve's supply token and of its debt
/// token, for an asset whose symbol is `asset_symbol`. Both tokens have 7 decimals
/// and are named "Blend supply token for " followed by the symbol, with "b" followed
/// by the symbol as their symbol: the debt token is initialized with the supply
/// token's name and symbol.
pub fn reserve_token_inits(asset_symbol: &Vec<u8>) -> (r: (TokenInit, TokenInit))
    ensures
        r.0.decimals == TOKEN_DECIMALS,
        r.0.name@ == supply_name_prefix() + asset_symbol@,
        r.0.symbol@ == supply_symbol_prefix() + asset_symbol@,
        r.1.decimals == TOKEN_DECIMALS,
        r.1.name@ == r.0.name@,
        r.1.symbol@ == r.0.symbol@,
{
    let name_prefix: Vec<u8> = vec![
        66u8, 108, 101, 110, 100, 32, 115, 117, 112, 112, 108, 121, 32, 116, 111, 107, 101,
        110, 32, 102, 111, 114, 32,
    ];
    assert(name_prefix@ =~= supply_name_prefix());
    let symbol_prefix: Vec<u8> = vec![98u8];
    assert(symbol_prefix@ =~= supply_symbol_prefix());
    let b_token_name = prefixed(name_prefix, asset_symbol);
    let b_token_symbol = prefixed(symbol_prefix, asset_symbol);
    let d_token_name = b_token_name.clone();
    let d_token_symbol = b_token_symbol.clone();
    (
        TokenInit { decimals: TOKEN_DECIMALS, name: b_token_name, symbol: b_token_symbol },
        TokenInit { decimals: TOKEN_DECIMALS, name: d_token_name, symbol: d_token_symbol },
    )
}


/// What `execute_update_reserve` answers on `s`: the first of its refusals that
/// applies, or `Ok`.
pub open spec fn update_reserve_outcome(
    s: PoolStoreView,
    from: Address,
    metadata: ReserveMetadata,
) -> Result<(), PoolError> {
    if from@ != s.admin->0 {
        Err(PoolError::NotAuthorized)
    } else if !metadata.is_valid() {
        Err(PoolError::InvalidReserveMetadata)
    } else if s.pool_config->0.status == POOL_STATUS_FROZEN {
        Err(PoolError::InvalidPoolStatus)
    } else {
        Ok(())
    }
}

/// Checks a request of `from` to change the metadata of the reserve of `asset`, and
/// where it may go on gives the reserve's position. Only the admin may update a
/// reserve, with valid metadata, and not while the pool's status is 2. The reserve's
/// interest is to be accrued before `apply_reserve_update` writes the change.
pub fn execute_update_reserve(
    store: &PoolStore,
    from: &Address,
    asset: &BytesN32,
    metadata: &ReserveMetadata,
) -> (r: Result<usize, PoolError>)
    requires
        store@.has_admin(),
        from@ == store@.admin->0 && metadata.is_valid() ==> store@.pool_config is Some,
        update_reserve_outcome(store@, *from, *metadata) is Ok ==> store@.has_reserve(asset@),
    ensures
        r is Ok <==> update_reserve_outcome(store@, *from, *metadata) is Ok,
        r matches Err(e) ==> update_reserve_outcome(store@, *from, *metadata) == Err::<
            (),
            PoolError,
        >(e),
        r matches Ok(i) ==> i < store@.reserves.len() && store@.reserves[i as int].asset@ == asset@,
{
    let admin = store.admin().unwrap();
    if !from.same_as(&admin) {
        return Err(PoolError::NotAuthorized);
    }
    match validate_reserve_metadata(metadata) {
        Err(e) => { return Err(e); },
        Ok(()) => {},
    }
    let pool_config = store.pool_config().unwrap();
    if pool_config.status == POOL_STATUS_FROZEN {
        return Err(PoolError::InvalidPoolStatus);
    }
    Ok(store.find_reserve(asset).unwrap())
}

/// `e` with the metadata fields of its configuration taken from `metadata` and with
/// `data` as its accounting data; asset, tokens and index stay.
pub open spec fn updated_reserve(e: ReserveEntry, metadata: ReserveMetadata, data: ReserveData) -> ReserveEntry {
    ReserveEntry {
        config: ReserveConfig {
            decimals: metadata.decimals,
            c_factor: metadata.c_factor,
            l_factor: metadata.l_factor,
            util: metadata.util,
            max_util: metadata.max_util,
            r_one: metadata.r_one,
            r_two: metadata.r_two,
            r_three: metadata.r_three,
            reactivity: metadata.reactivity,
            ..e.config
        },
        data,
        ..e
    }
}

/// Writes an accepted reserve update: the reserve at `index` takes the metadata
/// fields of `metadata` and the accrued data `accrued`; its asset, token contracts
/// and index stay, and so does everything else.
pub fn apply_reserve_update(
    store: &mut PoolStore,
    index: usize,
    metadata: &ReserveMetadata,
    accrued: ReserveData,
)
    requires
        index < old(store)@.reserves.len(),
        metadata.is_valid(),
    ensures
        final(store)@ == (PoolStoreView {
            reserves: old(store)@.reserves.update(
                index as int,
                updated_reserve(old(store)@.reserves[index as int], *metadata, accrued),
            ),
            ..old(store)@
        }),
        final(store)@.well_formed(),
{
    proof {
        use_type_invariant(&*store);
    }
    let mut reserve = store.reserve(index);
    reserve.config.decimals = metadata.decimals;
    reserve.config.c_factor = metadata.c_factor;
    reserve.config.l_factor = metadata.l_factor;
    reserve.config.util = metadata.util;
    reserve.config.max_util = metadata.max_util;
    reserve.config.r_one = metadata.r_one;
    reserve.config.r_two = metadata.r_two;
    reserve.config.r_three = metadata.r_three;
    reserve.config.reactivity = metadata.reactivity;
    reserve.data = accrued;
    store.set_reserve(index, reserve);
    proof {
        use_type_invariant(&*store);
    }
}


/// A pool is initialized at most once: after a successful initialization the stored
/// values are those that were given, and every later `execute_initialize`, whatever
/// its backstop take rate, is refused as already initialized.
pub proof fn lemma_initialized_pool_refuses_reinitialization(
    s: PoolStoreView,
    admin: Seq<u8>,
    name: Seq<u8>,
    oracle: BytesN32,
    bstop_rate: u64,
    backstop_id: BytesN32,
    b_token_hash: BytesN32,
    d_token_hash: BytesN32,
    blnd_id: BytesN32,
    usdc_id: BytesN32,
    later_bstop_rate: u64,
)
    ensures
        ({
            let t = initialized(
                s,
                admin,
                name,
                oracle,
                bstop_rate,
                backstop_id,
                b_token_hash,
                d_token_hash,
                blnd_id,
                usdc_id,
            );
            &&& initialize_outcome(t, later_bstop_rate) == Err::<(), PoolError>(
                PoolError::AlreadyInitialized,
            )
            &&& t.admin == Some(admin)
            &&& t.name == Some(name)
            &&& t.backstop == Some(backstop_id)
            &&& t.pool_config == Some(
                PoolConfig { oracle, bstop_rate, status: POOL_STATUS_INITIAL },
            )
            &&& t.token_hashes == Some((b_token_hash, d_token_hash))
            &&& t.blnd_token == Some(blnd_id)
            &&& t.usdc_token == Some(usdc_id)
            &&& t.reserves == s.reserves
        }),
{
}

/// A reserve is initialized at most once per asset: once the reserve of `asset` is
/// registered, every later request to initialize one for `asset` is refused, as
/// unauthorized for anyone but the admin and as already initialized for the admin.
pub proof fn lemma_registered_asset_is_refused(
    s: PoolStoreView,
    asset: BytesN32,
    metadata: ReserveMetadata,
    b_token: BytesN32,
    d_token: BytesN32,
    timestamp: u64,
    from: Address,
    other_metadata: ReserveMetadata,
)
    requires
        s.reserves.len() < u32::MAX,
    ensures
        ({
            let t = PoolStoreView {
                reserves: s.reserves.push(
                    new_reserve(asset, metadata, b_token, d_token, s.reserves.len() as u32, timestamp),
                ),
                ..s
            };
            initialize_reserve_outcome(t, from, asset, other_metadata) == if from@ != s.admin->0 {
                Err::<(), PoolError>(PoolError::NotAuthorized)
            } else {
                Err::<(), PoolError>(PoolError::AlreadyInitialized)
            }
        }),
{
    let t = PoolStoreView {
        reserves: s.reserves.push(
            new_reserve(asset, metadata, b_token, d_token, s.reserves.len() as u32, timestamp),
        ),
        ..s
    };
    assert(t.reserves[s.reserves.len() as int].asset@ == asset@);
}

/// Reserves are numbered in the order of their registration: the reserve that
/// `register_reserve` adds to a well-formed store has the next free index, which is
/// its position, and carries the given metadata.
pub proof fn lemma_registered_reserve_takes_next_index(
    s: PoolStoreView,
    asset: BytesN32,
    metadata: ReserveMetadata,
    b_token: BytesN32,
    d_token: BytesN32,
    timestamp: u64,
)
    requires
        s.well_formed(),
        metadata.is_valid(),
        !s.has_reserve(asset@),
        s.reserves.len() < u32::MAX,
    ensures
        ({
            let e = new_reserve(asset, metadata, b_token, d_token, s.reserves.len() as u32, timestamp);
            let t = PoolStoreView { reserves: s.reserves.push(e), ..s };
            &&& t.well_formed()
            &&& t.reserves[s.reserves.len() as int].config.index == s.reserves.len()
            &&& e.config.has_metadata(metadata)
            &&& e.data.d_rate == INITIAL_RATE && e.data.ir_mod == INITIAL_RATE
            &&& e.data.b_supply == 0 && e.data.d_supply == 0
        }),
{
    let e = new_reserve(asset, metadata, b_token, d_token, s.reserves.len() as u32, timestamp);
    let t = PoolStoreView { reserves: s.reserves.push(e), ..s };
    assert forall|i: int, j: int| 0 <= i < j < t.reserves.len() implies #[trigger] t.reserves[i].asset@
        != #[trigger] t.reserves[j].asset@ by {
        if j == s.reserves.len() {
            assert(s.reserves[i] == t.reserves[i]);
        }
    }
    assert forall|i: int| 0 <= i < t.reserves.len() implies #[trigger] t.reserves[i].config.metadata().is_valid() by {
        if i < s.reserves.len() {
            assert(s.reserves[i] == t.reserves[i]);
        } else {
            assert(e.config.metadata() == metadata);
        }
    }
}

/// An update changes a reserve's metadata and data only: afterwards its
/// configuration carries the new metadata, and its asset, token contracts and index
/// are those it had.
pub proof fn lemma_update_keeps_identity(e: ReserveEntry, metadata: ReserveMetadata, data: ReserveData)
    ensures
        ({
            let u = updated_reserve(e, metadata, data);
            &&& u.config.has_metadata(metadata)
            &&& u.config.decimals == metadata.decimals
            &&& u.config.c_factor == metadata.c_factor
            &&& u.config.l_factor == metadata.l_factor
            &&& u.config.util == metadata.util
            &&& u.config.max_util == metadata.max_util
            &&& u.config.r_one == metadata.r_one
            &&& u.config.r_two == metadata.r_two
            &&& u.config.r_three == metadata.r_three
            &&& u.config.reactivity == metadata.reactivity
            &&& u.asset == e.asset
            &&& u.config.b_token == e.config.b_token
            &&& u.config.d_token == e.config.d_token
            &&& u.config.index == e.config.index
            &&& u.data == data
        }),
{
}

/// Reserve metadata is valid exactly when decimals are at most 18, the collateral and
/// liability factors at most one (7 decimals), the target utilization at most 95%,
/// the maximum utilization above the target and at most one, the three interest
/// slopes do not decrease, and the reactivity is at most 0.0005.
pub proof fn lemma_metadata_bounds(metadata: ReserveMetadata)
    ensures
        metadata.is_valid() <==> {
            &&& metadata.decimals <= 18
            &&& metadata.c_factor <= 1_0000000
            &&& metadata.l_factor <= 1_0000000
            &&& metadata.util <= 0_9500000
            &&& metadata.util < metadata.max_util
            &&& metadata.max_util <= 1_0000000
            &&& metadata.r_one <= metadata.r_two
            &&& metadata.r_two <= metadata.r_three
            &&& metadata.reactivity <= 0_0005000
        },
{
}

/// Pool initialization refuses a pool that has an admin; otherwise it refuses
/// exactly the backstop take rates of one or more, and accepts every rate below one.
pub proof fn lemma_initialize_accepts_rates_below_one(s: PoolStoreView, bstop_rate: u64)
    ensures
        s.admin is Some ==> initialize_outcome(s, bstop_rate) == Err::<(), PoolError>(
            PoolError::AlreadyInitialized,
        ),
        s.admin is None && bstop_rate < 1_000_000_000 ==> initialize_outcome(s, bstop_rate)
            == Ok::<(), PoolError>(()),
        s.admin is None && bstop_rate >= 1_000_000_000 ==> initialize_outcome(s, bstop_rate)
            == Err::<(), PoolError>(PoolError::InvalidPoolInitArgs),
{
}

/// A reserve request is refused as unauthorized when it does not come from the
/// admin; the admin's request for an asset that has a reserve is refused as already
/// initialized; the admin's request for a new asset is accepted exactly when the
/// metadata meets its bounds (any decimals from 0 to 18 among them), and is refused
/// as invalid metadata otherwise.
pub proof fn lemma_reserve_request_outcomes(
    s: PoolStoreView,
    from: Address,
    asset: BytesN32,
    metadata: ReserveMetadata,
)
    requires
        s.admin is Some,
    ensures
        from@ != s.admin->0 ==> initialize_reserve_outcome(s, from, asset, metadata) == Err::<
            (),
            PoolError,
        >(PoolError::NotAuthorized),
        from@ == s.admin->0 && (exists|i: int|
            0 <= i < s.reserves.len() && #[trigger] s.reserves[i].asset@ == asset@)
            ==> initialize_reserve_outcome(s, from, asset, metadata) == Err::<(), PoolError>(
            PoolError::AlreadyInitialized,
        ),
        from@ == s.admin->0 && (forall|i: int|
            0 <= i < s.reserves.len() ==> #[trigger] s.reserves[i].asset@ != asset@) ==> {
            &&& (metadata.decimals <= 18 && metadata.c_factor <= 1_0000000 && metadata.l_factor
                <= 1_0000000 && metadata.util <= 0_9500000 && metadata.util < metadata.max_util
                && metadata.max_util <= 1_0000000 && metadata.r_one <= metadata.r_two
                && metadata.r_two <= metadata.r_three && metadata.reactivity <= 0_0005000)
                ==> initialize_reserve_outcome(s, from, asset, metadata) == Ok::<(), PoolError>(())
            &&& !(metadata.decimals <= 18 && metadata.c_factor <= 1_0000000 && metadata.l_factor
                <= 1_0000000 && metadata.util <= 0_9500000 && metadata.util < metadata.max_util
                && metadata.max_util <= 1_0000000 && metadata.r_one <= metadata.r_two
                && metadata.r_two <= metadata.r_three && metadata.reactivity <= 0_0005000)
                ==> initialize_reserve_outcome(s, from, asset, metadata) == Err::<(), PoolError>(
                PoolError::InvalidReserveMetadata,
            )
        },
{
}

/// A reserve update is refused as unauthorized when it does not come from the
/// admin; the admin's update whose metadata breaks a bound (a factor above one
/// among them) is refused as invalid metadata; the admin's valid update is refused
/// while the pool's status is 2 and accepted otherwise.
pub proof fn lemma_reserve_update_outcomes(
    s: PoolStoreView,
    from: Address,
    metadata: ReserveMetadata,
)
    requires
        s.admin is Some,
        s.pool_config is Some,
    ensures
        from@ != s.admin->0 ==> update_reserve_outcome(s, from, metadata) == Err::<(), PoolError>(
            PoolError::NotAuthorized,
        ),
        from@ == s.admin->0 && !(metadata.decimals <= 18 && metadata.c_factor <= 1_0000000
            && metadata.l_factor <= 1_0000000 && metadata.util <= 0_9500000 && metadata.util
            < metadata.max_util && metadata.max_util <= 1_0000000 && metadata.r_one
            <= metadata.r_two && metadata.r_two <= metadata.r_three && metadata.reactivity
            <= 0_0005000) ==> update_reserve_outcome(s, from, metadata) == Err::<(), PoolError>(
            PoolError::InvalidReserveMetadata,
        ),
        from@ == s.admin->0 && (metadata.decimals <= 18 && metadata.c_factor <= 1_0000000
            && metadata.l_factor <= 1_0000000 && metadata.util <= 0_9500000 && metadata.util
            < metadata.max_util && metadata.max_util <= 1_0000000 && metadata.r_one
            <= metadata.r_two && metadata.r_two <= metadata.r_three && metadata.reactivity
            <= 0_0005000) ==> update_reserve_outcome(s, from, metadata) == (if s.pool_config->0.status
            == 2 {
            Err::<(), PoolError>(PoolError::InvalidPoolStatus)
        } else {
            Ok::<(), PoolError>(())
        }),
        update_reserve_outcome(s, from, metadata) is Ok ==> metadata.is_valid(),
{
}

/// A registered reserve records exactly what it was given: its asset, its supply
/// and debt token contracts (in that order), its index, its metadata, and its
/// last accrual time; its rates start at one and its supplies at zero.
pub proof fn lemma_new_reserve_records_arguments(
    asset: BytesN32,
    metadata: ReserveMetadata,
    b_token: BytesN32,
    d_token: BytesN32,
    index: u32,
    timestamp: u64,
)
    ensures
        ({
            let e = new_reserve(asset, metadata, b_token, d_token, index, timestamp);
            &&& e.asset == asset
            &&& e.config.b_token == b_token
            &&& e.config.d_token == d_token
            &&& e.config.index == index
            &&& e.config.decimals == metadata.decimals
            &&& e.config.c_factor == metadata.c_factor
            &&& e.config.l_factor == metadata.l_factor
            &&& e.config.util == metadata.util
            &&& e.config.max_util == metadata.max_util
            &&& e.config.r_one == metadata.r_one
            &&& e.config.r_two == metadata.r_two
            &&& e.config.r_three == metadata.r_three
            &&& e.config.reactivity == metadata.reactivity
            &&& e.data.d_rate == 1_000_000_000
            &&& e.data.ir_mod == 1_000_000_000
            &&& e.data.d_supply == 0
            &&& e.data.b_supply == 0
            &&& e.data.last_time == timestamp
        }),
{
}

} // verus!
