use lending_pool::config::{
    apply_reserve_update, execute_initialize, execute_update_reserve, initialize_reserve,
    register_reserve, reserve_token_inits, validate_reserve_metadata,
};
use lending_pool::errors::PoolError;
use lending_pool::ids::{Address, BytesN32};
use lending_pool::reserve::{ReserveData, ReserveMetadata};
use lending_pool::storage::{PoolConfig, PoolStore};

fn id(n: u8) -> BytesN32 {
    BytesN32 { bytes: [n; 32] }
}

fn addr(n: u8) -> Address {
    Address { strkey: format!("G{:055}", n).into_bytes() }
}

fn standard_metadata() -> ReserveMetadata {
    ReserveMetadata {
        decimals: 7,
        c_factor: 0_7500000,
        l_factor: 0_7500000,
        util: 0_5000000,
        max_util: 0_9500000,
        r_one: 0_0500000,
        r_two: 0_5000000,
        r_three: 1_5000000,
        reactivity: 100,
    }
}

#[test]
fn test_execute_initialize() {
    let mut store = PoolStore::new();

    let admin = addr(1);
    let name = b"pool_name".to_vec();
    let oracle = id(2);
    let bstop_rate = 0_100_000_000u64;
    let backstop_id = id(3);
    let b_token_hash = id(4);
    let d_token_hash = id(5);
    let blnd_id = id(6);
    let usdc_id = id(7);

    let result = execute_initialize(
        &mut store,
        &admin,
        &name,
        &oracle,
        &1_000_000_000,
        &backstop_id,
        &b_token_hash,
        &d_token_hash,
        &blnd_id,
        &usdc_id,
    );
    assert_eq!(result, Err(PoolError::InvalidPoolInitArgs));

    execute_initialize(
        &mut store,
        &admin,
        &name,
        &oracle,
        &bstop_rate,
        &backstop_id,
        &b_token_hash,
        &d_token_hash,
        &blnd_id,
        &usdc_id,
    )
    .unwrap();

    assert_eq!(store.admin(), Some(admin.duplicate()));
    assert_eq!(store.name(), Some(name.clone()));
    let pool_config = store.pool_config().unwrap();
    assert_eq!(pool_config.oracle, oracle);
    assert_eq!(pool_config.bstop_rate, bstop_rate);
    assert_eq!(pool_config.status, 1);
    assert_eq!(store.backstop(), Some(backstop_id));
    assert_eq!(store.token_hashes(), Some((b_token_hash, d_token_hash)));
    assert_eq!(store.blnd_token(), Some(blnd_id));
    assert_eq!(store.usdc_token(), Some(usdc_id));

    let result = execute_initialize(
        &mut store,
        &addr(9),
        &name,
        &oracle,
        &bstop_rate,
        &backstop_id,
        &b_token_hash,
        &d_token_hash,
        &blnd_id,
        &usdc_id,
    );
    assert_eq!(result, Err(PoolError::AlreadyInitialized));
}

#[test]
fn test_initialize_reserve() {
    let bombadil = addr(1);
    let sauron = addr(2);
    let asset_id_0 = id(10);
    let asset_id_1 = id(11);
    let b_token_hash = id(20);
    let d_token_hash = id(21);

    let metadata = standard_metadata();
    let mut bad_metadata = metadata;
    bad_metadata.util = 1_0000000;

    let mut store = PoolStore::new();
    store.set_token_hashes(&b_token_hash, &d_token_hash);
    store.set_admin(&bombadil);

    let deployment = initialize_reserve(&store, &bombadil, &asset_id_0, &metadata).unwrap();
    assert_eq!(deployment.b_token_hash, b_token_hash);
    assert_eq!(deployment.d_token_hash, d_token_hash);
    register_reserve(&mut store, &asset_id_0, &metadata, &id(30), &id(31), 0);

    // if already exists blocks
    let result = initialize_reserve(&store, &bombadil, &asset_id_0, &metadata);
    assert_eq!(result, Err(PoolError::AlreadyInitialized));

    // only admin
    let result = initialize_reserve(&store, &sauron, &asset_id_1, &metadata);
    assert_eq!(result, Err(PoolError::NotAuthorized));

    // validates metadata
    let result = initialize_reserve(&store, &bombadil, &asset_id_1, &bad_metadata);
    assert_eq!(result, Err(PoolError::InvalidReserveMetadata));

    let deployment_1 = initialize_reserve(&store, &bombadil, &asset_id_1, &metadata).unwrap();
    register_reserve(&mut store, &asset_id_1, &metadata, &id(32), &id(33), 0);

    let res_config_0 = store.reserve(store.find_reserve(&asset_id_0).unwrap()).config;
    let res_config_1 = store.reserve(store.find_reserve(&asset_id_1).unwrap()).config;
    assert_eq!(res_config_0.decimals, metadata.decimals);
    assert_eq!(res_config_0.c_factor, metadata.c_factor);
    assert_eq!(res_config_0.l_factor, metadata.l_factor);
    assert_eq!(res_config_0.util, metadata.util);
    assert_eq!(res_config_0.max_util, metadata.max_util);
    assert_eq!(res_config_0.r_one, metadata.r_one);
    assert_eq!(res_config_0.r_two, metadata.r_two);
    assert_eq!(res_config_0.r_three, metadata.r_three);
    assert_eq!(res_config_0.reactivity, metadata.reactivity);
    assert_eq!(res_config_0.index, 0);
    assert_eq!(res_config_1.index, 1);

    // token contracts are deployed from salts derived from the asset
    assert_ne!(deployment.b_token_salt, deployment_1.b_token_salt);
    assert_ne!(deployment.d_token_salt, deployment_1.d_token_salt);
    assert_ne!(deployment.b_token_salt, deployment.d_token_salt);
}

#[test]
fn test_execute_update_reserve() {
    let bombadil = addr(1);
    let sauron = addr(2);
    let asset = id(10);

    let mut store = PoolStore::new();
    store.set_admin(&bombadil);
    let index = register_reserve(&mut store, &asset, &standard_metadata(), &id(30), &id(31), 500);
    let setup_data = ReserveData {
        d_rate: 1_000_000_000,
        ir_mod: 1_000_000_000,
        d_supply: 50_0000000,
        b_supply: 100_0000000,
        last_time: 500,
    };
    apply_reserve_update(&mut store, index as usize, &standard_metadata(), setup_data);

    let new_metadata = ReserveMetadata {
        decimals: 7,
        c_factor: 0_7500000,
        l_factor: 0_7500000,
        util: 0_7777777,
        max_util: 0_9500000,
        r_one: 0_0500000,
        r_two: 0_5000000,
        r_three: 1_5000000,
        reactivity: 105,
    };
    let mut bad_metadata = new_metadata;
    bad_metadata.util = 1_0000000;

    let pool_config = PoolConfig { oracle: id(40), bstop_rate: 0_100_000_000, status: 0 };
    store.set_pool_config(&pool_config);
    store.set_backstop(&id(50));

    let res_config_old = store.reserve(index as usize).config;

    let result = execute_update_reserve(&store, &sauron, &asset, &new_metadata);
    assert_eq!(result, Err(PoolError::NotAuthorized));

    let result = execute_update_reserve(&store, &bombadil, &asset, &bad_metadata);
    assert_eq!(result, Err(PoolError::InvalidReserveMetadata));

    let position = execute_update_reserve(&store, &bombadil, &asset, &new_metadata).unwrap();
    // interest accrued up to the ledger time of the update
    let accrued = ReserveData {
        d_rate: 1_000_000_100,
        ir_mod: 1_000_000_000,
        d_supply: 50_0000000,
        b_supply: 100_0000050,
        last_time: 10000,
    };
    apply_reserve_update(&mut store, position, &new_metadata, accrued);

    let res_config_updated = store.reserve(store.find_reserve(&asset).unwrap()).config;
    assert_eq!(res_config_updated.decimals, new_metadata.decimals);
    assert_eq!(res_config_updated.c_factor, new_metadata.c_factor);
    assert_eq!(res_config_updated.l_factor, new_metadata.l_factor);
    assert_eq!(res_config_updated.util, new_metadata.util);
    assert_eq!(res_config_updated.max_util, new_metadata.max_util);
    assert_eq!(res_config_updated.r_one, new_metadata.r_one);
    assert_eq!(res_config_updated.r_two, new_metadata.r_two);
    assert_eq!(res_config_updated.r_three, new_metadata.r_three);
    assert_eq!(res_config_updated.reactivity, new_metadata.reactivity);
    assert_eq!(res_config_updated.index, res_config_old.index);
    assert_eq!(res_config_updated.b_token, res_config_old.b_token);
    assert_eq!(res_config_updated.d_token, res_config_old.d_token);

    let res_data = store.reserve(position).data;
    assert!(res_data.b_supply > 100_0000000);
    assert!(res_data.d_rate > 1_000_000_000);
    assert_eq!(res_data.last_time, 10000);
}

#[test]
fn test_validate_reserve_metadata() {
    // valid
    let mut metadata = standard_metadata();
    metadata.decimals = 18;
    assert_eq!(validate_reserve_metadata(&metadata), Ok(()));

    // decimals
    metadata.decimals = 19;
    assert_eq!(validate_reserve_metadata(&metadata), Err(PoolError::InvalidReserveMetadata));
    metadata.decimals = 18;

    // c_factor
    metadata.c_factor = 1_0000001;
    assert_eq!(validate_reserve_metadata(&metadata), Err(PoolError::InvalidReserveMetadata));
    metadata.c_factor = 0_7500000;

    // l_factor
    metadata.l_factor = 1_0000001;
    assert_eq!(validate_reserve_metadata(&metadata), Err(PoolError::InvalidReserveMetadata));
    metadata.l_factor = 0_7500000;

    // util
    metadata.util = 0_9500001;
    assert_eq!(validate_reserve_metadata(&metadata), Err(PoolError::InvalidReserveMetadata));
    metadata.util = 0_5000000;

    // max_util
    metadata.max_util = 1_0000001;
    assert_eq!(validate_reserve_metadata(&metadata), Err(PoolError::InvalidReserveMetadata));
    metadata.max_util = 0_9500000;

    // r
    metadata.r_one = 0_0500001;
    metadata.r_two = 0_0500000;
    metadata.r_three = 1_5000000;
    assert_eq!(validate_reserve_metadata(&metadata), Err(PoolError::InvalidReserveMetadata));
    metadata.r_one = 0_0500000;
    metadata.r_two = 0_5000001;
    metadata.r_three = 0_5000000;
    assert_eq!(validate_reserve_metadata(&metadata), Err(PoolError::InvalidReserveMetadata));
    metadata.r_one = 0_0500000;
    metadata.r_two = 0_5000000;
    metadata.r_three = 1_5000000;

    // reactivity
    metadata.reactivity = 5001;
    assert_eq!(validate_reserve_metadata(&metadata), Err(PoolError::InvalidReserveMetadata));
    metadata.reactivity = 100;
    assert_eq!(validate_reserve_metadata(&metadata), Ok(()));
}

#[test]
fn max_util_equal_to_util_is_refused() {
    let mut metadata = standard_metadata();
    metadata.max_util = metadata.util;
    assert_eq!(validate_reserve_metadata(&metadata), Err(PoolError::InvalidReserveMetadata));
    metadata.max_util = metadata.util + 1;
    assert_eq!(validate_reserve_metadata(&metadata), Ok(()));
}

#[test]
fn bstop_rate_just_below_one_is_accepted() {
    let mut store = PoolStore::new();
    let r = execute_initialize(
        &mut store, &addr(1), &b"p".to_vec(), &id(2), &999_999_999, &id(3), &id(4), &id(5), &id(6),
        &id(7),
    );
    assert_eq!(r, Ok(()));
    assert_eq!(store.pool_config().unwrap().bstop_rate, 999_999_999);
}

#[test]
fn failed_initialization_writes_nothing() {
    let mut store = PoolStore::new();
    let r = execute_initialize(
        &mut store, &addr(1), &b"p".to_vec(), &id(2), &u64::MAX, &id(3), &id(4), &id(5), &id(6),
        &id(7),
    );
    assert_eq!(r, Err(PoolError::InvalidPoolInitArgs));
    assert_eq!(store.admin(), None);
    assert_eq!(store.pool_config(), None);
    assert_eq!(store.token_hashes(), None);
}

#[test]
fn reserve_token_salts_mark_first_byte() {
    let mut store = PoolStore::new();
    store.set_admin(&addr(1));
    store.set_token_hashes(&id(20), &id(21));
    let asset = BytesN32 { bytes: [7u8; 32] };
    let d = initialize_reserve(&store, &addr(1), &asset, &standard_metadata()).unwrap();
    let mut b_salt = [7u8; 32];
    b_salt[0] = 0;
    let mut d_salt = [7u8; 32];
    d_salt[0] = 1;
    assert_eq!(d.b_token_salt.bytes, b_salt);
    assert_eq!(d.d_token_salt.bytes, d_salt);
}

#[test]
fn registered_reserve_starts_with_unit_rates() {
    let mut store = PoolStore::new();
    let i = register_reserve(&mut store, &id(10), &standard_metadata(), &id(30), &id(31), 1234);
    assert_eq!(i, 0);
    let e = store.reserve(0);
    assert_eq!(e.asset, id(10));
    assert_eq!(e.config.b_token, id(30));
    assert_eq!(e.config.d_token, id(31));
    assert_eq!(e.data.d_rate, 1_000_000_000);
    assert_eq!(e.data.ir_mod, 1_000_000_000);
    assert_eq!(e.data.b_supply, 0);
    assert_eq!(e.data.d_supply, 0);
    assert_eq!(e.data.last_time, 1234);
    assert_eq!(store.find_reserve(&id(11)), None);
}

#[test]
fn frozen_pool_refuses_reserve_update() {
    let mut store = PoolStore::new();
    store.set_admin(&addr(1));
    store.set_pool_config(&PoolConfig { oracle: id(40), bstop_rate: 0, status: 2 });
    register_reserve(&mut store, &id(10), &standard_metadata(), &id(30), &id(31), 0);
    let r = execute_update_reserve(&store, &addr(1), &id(10), &standard_metadata());
    assert_eq!(r, Err(PoolError::InvalidPoolStatus));
    store.set_pool_config(&PoolConfig { oracle: id(40), bstop_rate: 0, status: 1 });
    let r = execute_update_reserve(&store, &addr(1), &id(10), &standard_metadata());
    assert_eq!(r, Ok(0));
}

#[test]
fn reserve_tokens_are_labelled_from_asset_symbol() {
    let (b, d) = reserve_token_inits(&b"XLM".to_vec());
    assert_eq!(b.decimals, 7);
    assert_eq!(b.name, b"Blend supply token for XLM".to_vec());
    assert_eq!(b.symbol, b"bXLM".to_vec());
    assert_eq!(d.decimals, 7);
    assert_eq!(d.name, b"Blend supply token for XLM".to_vec());
    assert_eq!(d.symbol, b"bXLM".to_vec());
}

#[test]
fn account_and_contract_with_same_bytes_differ() {
    let mut store = PoolStore::new();
    let account = Address { strkey: b"GADMIN".to_vec() };
    let contract = Address { strkey: b"CADMIN".to_vec() };
    store.set_admin(&account);
    store.set_token_hashes(&id(20), &id(21));
    let r = initialize_reserve(&store, &contract, &id(10), &standard_metadata());
    assert_eq!(r, Err(PoolError::NotAuthorized));
    assert!(initialize_reserve(&store, &account, &id(10), &standard_metadata()).is_ok());
}
