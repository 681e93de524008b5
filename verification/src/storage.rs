//! The pool's stored state: admin, pool configuration, token hashes and reserves.
use vstd::prelude::*;
use crate::ids::{Address, BytesN32};
use crate::reserve::{ReserveConfig, ReserveData};

verus! {

/// The pool-wide configuration.
#[derive(Clone, Copy, Debug, PartialEq, Eq)]
pub struct PoolConfig {
    /// The price oracle's contract id.
    pub oracle: BytesN32,
    /// The share of interest that goes to the backstop, with 9 decimals.
    pub bstop_rate: u64,
    /// The pool's status code.
    pub status: u32,
}

/// A reserve: its underlying asset, configuration and accounting data.
#[derive(Clone, Copy, Debug, PartialEq, Eq)]
pub struct ReserveEntry {
    pub asset: BytesN32,
    pub config: ReserveConfig,
    pub data: ReserveData,
}

/// What the pool keeps in storage. A value that was never written is `None`.
/// Reserves are kept in the order in which they were initialized, at most one per
/// asset, each at the position that its index names.
pub struct PoolStore {
    pub(crate) admin: Option<Address>,
    pub(crate) name: Option<Vec<u8>>,
    pub(crate) backstop: Option<BytesN32>,
    pub(crate) pool_config: Option<PoolConfig>,
    /// The wasm hashes of the supply token and of the debt token.
    pub(crate) token_hashes: Option<(BytesN32, BytesN32)>,
    pub(crate) blnd_token: Option<BytesN32>,
    pub(crate) usdc_token: Option<BytesN32>,
    pub(crate) reserves: Vec<ReserveEntry>,
}

/// The stored state as mathematical values.
#[verifier::ext_equal]
pub struct PoolStoreView {
    /// The admin's strkey.
    pub admin: Option<Seq<u8>>,
    pub name: Option<Seq<u8>>,
    pub backstop: Option<BytesN32>,
    pub pool_config: Option<PoolConfig>,
    pub token_hashes: Option<(BytesN32, BytesN32)>,
    pub blnd_token: Option<BytesN32>,
    pub usdc_token: Option<BytesN32>,
    pub reserves: Seq<ReserveEntry>,
}

impl View for PoolStore {
    type V = PoolStoreView;

    closed spec fn view(&self) -> PoolStoreView {
        PoolStoreView {
            admin: match self.admin {
                Some(a) => Some(a@),
                None => None,
            },
            name: match self.name {
                Some(n) => Some(n@),
                None => None,
            },
            backstop: self.backstop,
            pool_config: self.pool_config,
            token_hashes: self.token_hashes,
            blnd_token: self.blnd_token,
            usdc_token: self.usdc_token,
            reserves: self.reserves@,
        }
    }
}

impl PoolStoreView {
    /// Whether an admin was stored.
    pub open spec fn has_admin(self) -> bool {
        self.admin is Some
    }

    /// Whether a reserve for `asset` was initialized.
    pub open spec fn has_reserve(self, asset: Seq<u8>) -> bool {
        exists|i: int| 0 <= i < self.reserves.len() && #[trigger] self.reserves[i].asset@ == asset
    }

    /// Every asset has at most one reserve, each reserve's index is its position, and
    /// each reserve's metadata is valid.
    pub open spec fn well_formed(self) -> bool {
        &&& forall|i: int, j: int|
            0 <= i < j < self.reserves.len() ==> #[trigger] self.reserves[i].asset@
                != #[trigger] self.reserves[j].asset@
        &&& forall|i: int| 0 <= i < self.reserves.len() ==> #[trigger] self.reserves[i].config.index == i
        &&& forall|i: int|
            0 <= i < self.reserves.len() ==> #[trigger] self.reserves[i].config.metadata().is_valid()
    }
}

impl PoolStore {
    /// The stored reserves stay well formed.
    #[verifier::type_invariant]
    pub(crate) open spec fn inv(self) -> bool {
        self@.well_formed()
    }

    /// The storage of a pool that nothing has been written to.
    pub fn new() -> (r: PoolStore)
        ensures
            r@.admin is None,
            r@.name is None,
            r@.backstop is None,
            r@.pool_config is None,
            r@.token_hashes is None,
            r@.blnd_token is None,
            r@.usdc_token is None,
            r@.reserves.len() == 0,
    {
        PoolStore {
            admin: None,
            name: None,
            backstop: None,
            pool_config: None,
            token_hashes: None,
            blnd_token: None,
            usdc_token: None,
            reserves: Vec::new(),
        }
    }

    /// The stored admin.
    pub fn admin(&self) -> (r: Option<Address>)
        ensures
            r matches Some(a) ==> self@.admin == Some(a@),
            r is None <==> self@.admin is None,
    {
        match &self.admin {
            Some(a) => Some(a.duplicate()),
            None => None,
        }
    }

    /// The stored pool name.
    pub fn name(&self) -> (r: Option<Vec<u8>>)
        ensures
            r matches Some(n) ==> self@.name == Some(n@),
            r is None <==> self@.name is None,
    {
        match &self.name {
            Some(n) => Some(n.clone()),
            None => None,
        }
    }

    /// The stored backstop id.
    pub fn backstop(&self) -> (r: Option<BytesN32>)
        ensures
            r == self@.backstop,
    {
        self.backstop
    }

    /// The stored pool configuration.
    pub fn pool_config(&self) -> (r: Option<PoolConfig>)
        ensures
            r == self@.pool_config,
    {
        self.pool_config
    }

    /// The stored wasm hashes of the supply and debt tokens.
    pub fn token_hashes(&self) -> (r: Option<(BytesN32, BytesN32)>)
        ensures
            r == self@.token_hashes,
    {
        self.token_hashes
    }

    /// The stored BLND token id.
    pub fn blnd_token(&self) -> (r: Option<BytesN32>)
        ensures
            r == self@.blnd_token,
    {
        self.blnd_token
    }

    /// The stored USDC token id.
    pub fn usdc_token(&self) -> (r: Option<BytesN32>)
        ensures
            r == self@.usdc_token,
    {
        self.usdc_token
    }

    /// The number of reserves.
    pub fn reserve_count(&self) -> (r: usize)
        ensures
            r == self@.reserves.len(),
    {
        self.reserves.len()
    }

    /// The reserve at position `index`.
    pub fn reserve(&self, index: usize) -> (r: ReserveEntry)
        requires
            index < self@.reserves.len(),
        ensures
            r == self@.reserves[index as int],
    {
        self.reserves[index]
    }

    /// Stores `admin` as the pool's admin.
    pub fn set_admin(&mut self, admin: &Address)
        ensures
            final(self)@ == (PoolStoreView { admin: Some(admin@), ..old(self)@ }),
    {
        proof {
            use_type_invariant(&*self);
        }
        self.admin = Some(admin.duplicate());
    }

    /// Stores `config` as the pool's configuration.
    pub fn set_pool_config(&mut self, config: &PoolConfig)
        ensures
            final(self)@ == (PoolStoreView { pool_config: Some(*config), ..old(self)@ }),
    {
        proof {
            use_type_invariant(&*self);
        }
        self.pool_config = Some(*config);
    }

    /// Stores `backstop` as the pool's backstop id.
    pub fn set_backstop(&mut self, backstop: &BytesN32)
        ensures
            final(self)@ == (PoolStoreView { backstop: Some(*backstop), ..old(self)@ }),
    {
        proof {
            use_type_invariant(&*self);
        }
        self.backstop = Some(*backstop);
    }

    /// Stores the wasm hashes of the supply token and of the debt token.
    pub fn set_token_hashes(&mut self, b_token_hash: &BytesN32, d_token_hash: &BytesN32)
        ensures
            final(self)@ == (PoolStoreView {
                token_hashes: Some((*b_token_hash, *d_token_hash)),
                ..old(self)@
            }),
    {
        proof {
            use_type_invariant(&*self);
        }
        self.token_hashes = Some((*b_token_hash, *d_token_hash));
    }

    /// Stores `name` as the pool's name.
    pub fn set_name(&mut self, name: &Vec<u8>)
        ensures
            final(self)@ == (PoolStoreView { name: Some(name@), ..old(self)@ }),
    {
        proof {
            use_type_invariant(&*self);
        }
        self.name = Some(name.clone());
    }

    /// Stores `blnd_token` as the BLND token id.
    pub fn set_blnd_token(&mut self, blnd_token: &BytesN32)
        ensures
            final(self)@ == (PoolStoreView { blnd_token: Some(*blnd_token), ..old(self)@ }),
    {
        proof {
            use_type_invariant(&*self);
        }
        self.blnd_token = Some(*blnd_token);
    }

    /// Stores `usdc_token` as the USDC token id.
    pub fn set_usdc_token(&mut self, usdc_token: &BytesN32)
        ensures
            final(self)@ == (PoolStoreView { usdc_token: Some(*usdc_token), ..old(self)@ }),
    {
        proof {
            use_type_invariant(&*self);
        }
        self.usdc_token = Some(*usdc_token);
    }

    /// Appends a reserve for an asset that has none, at the next index.
    pub fn push_reserve(&mut self, entry: ReserveEntry)
        requires
            !old(self)@.has_reserve(entry.asset@),
            entry.config.index == old(self)@.reserves.len(),
            entry.config.metadata().is_valid(),
        ensures
            final(self)@ == (PoolStoreView { reserves: old(self)@.reserves.push(entry), ..old(self)@ }),
    {
        proof {
            use_type_invariant(&*self);
            let t = self.reserves@.push(entry);
            assert forall|i: int, j: int| 0 <= i < j < t.len() implies #[trigger] t[i].asset@
                != #[trigger] t[j].asset@ by {
                if j == t.len() - 1 {
                    assert(self.reserves@[i] == t[i]);
                }
            }
            assert forall|i: int| 0 <= i < t.len() implies #[trigger] t[i].config.index == i
                && t[i].config.metadata().is_valid() by {
                if i < t.len() - 1 {
                    assert(self.reserves@[i] == t[i]);
                }
            }
        }
        let mut reserves = Vec::new();
        std::mem::swap(&mut reserves, &mut self.reserves);
        reserves.push(entry);
        self.reserves = reserves;
    }

    /// Replaces the reserve at position `index` with `entry`, which is for the same
    /// asset and keeps the index.
    pub fn set_reserve(&mut self, index: usize, entry: ReserveEntry)
        requires
            index < old(self)@.reserves.len(),
            entry.asset == old(self)@.reserves[index as int].asset,
            entry.config.index == index,
            entry.config.metadata().is_valid(),
        ensures
            final(self)@ == (PoolStoreView {
                reserves: old(self)@.reserves.update(index as int, entry),
                ..old(self)@
            }),
    {
        proof {
            use_type_invariant(&*self);
        }
        let mut reserves = Vec::new();
        std::mem::swap(&mut reserves, &mut self.reserves);
        reserves.set(index, entry);
        self.reserves = reserves;
    }

    /// The position of the reserve of `asset`, `None` where it has none.
    pub fn find_reserve(&self, asset: &BytesN32) -> (r: Option<usize>)
        ensures
            match r {
                Some(i) => i < self@.reserves.len() && self@.reserves[i as int].asset@ == asset@,
                None => !self@.has_reserve(asset@),
            },
    {
        let mut i: usize = 0;
        while i < self.reserves.len()
            invariant
                i <= self.reserves.len(),
                forall|j: int| 0 <= j < i ==> self.reserves@[j].asset@ != asset@,
            decreases self.reserves.len() - i,
        {
            if self.reserves[i].asset.same_as(asset) {
                return Some(i);
            }
            i = i + 1;
        }
        None
    }
}

} // verus!
