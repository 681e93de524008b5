use vstd::prelude::*;
use crate::ids::BytesN32;

verus! {

/// One in `SCALAR_7` is the fixed-point unit of the reserve factors (7 decimals).
pub const SCALAR_7: u32 = 1_0000000;

/// Upper bound of a reserve's target utilization.
pub const MAX_TARGET_UTIL: u32 = 0_9500000;

/// Upper bound of a reserve's reactivity constant.
pub const MAX_REACTIVITY: u32 = 0_0005000;

/// Upper bound of a reserve's decimals.
pub const MAX_DECIMALS: u32 = 18;

/// The parameters of a reserve that the admin chooses.
#[derive(Clone, Copy, Debug, PartialEq, Eq, Structural)]
pub struct ReserveMetadata {
    pub decimals: u32,
    pub c_factor: u32,
    pub l_factor: u32,
    pub util: u32,
    pub max_util: u32,
    pub r_one: u32,
    pub r_two: u32,
    pub r_three: u32,
    pub reactivity: u32,
}

impl ReserveMetadata {
    /// The bounds that every reserve's metadata must meet: decimals at most 18,
    /// collateral and liability factors at most one, a target utilization at most
    /// 95%, a maximum utilization above the target and at most one, interest slopes
    /// that do not decrease, and a reactivity of at most 0.0005.
    pub open spec fn is_valid(self) -> bool {
        &&& self.decimals <= MAX_DECIMALS
        &&& self.c_factor <= SCALAR_7
        &&& self.l_factor <= SCALAR_7
        &&& self.util <= MAX_TARGET_UTIL
        &&& self.util < self.max_util <= SCALAR_7
        &&& self.r_one <= self.r_two <= self.r_three
        &&& self.reactivity <= MAX_REACTIVITY
    }
}

} // verus!

verus! {

/// A reserve's configuration: its token contracts, its index and its metadata.
#[derive(Clone, Copy, Debug, PartialEq, Eq)]
pub struct ReserveConfig {
    /// The supply token's contract id.
    pub b_token: BytesN32,
    /// The debt token's contract id.
    pub d_token: BytesN32,
    /// The reserve's position in the pool's reserve list.
    pub index: u32,
    pub decimals: u32,
    pub c_factor: u32,
    pub l_factor: u32,
    pub util: u32,
    pub max_util: u32,
    pub r_one: u32,
    pub r_two: u32,
    pub r_three: u32,
    pub reactivity: u32,
}

/// A reserve's accounting data.
#[derive(Clone, Copy, Debug, PartialEq, Eq)]
pub struct ReserveData {
    /// The conversion rate from debt tokens to underlying, with 9 decimals.
    pub d_rate: i128,
    /// The interest rate modifier, with 9 decimals.
    pub ir_mod: i128,
    pub d_supply: i128,
    pub b_supply: i128,
    /// The ledger timestamp of the last accrual.
    pub last_time: u64,
}

impl ReserveConfig {
    /// The metadata fields of this configuration.
    pub open spec fn metadata(self) -> ReserveMetadata {
        ReserveMetadata {
            decimals: self.decimals,
            c_factor: self.c_factor,
            l_factor: self.l_factor,
            util: self.util,
            max_util: self.max_util,
            r_one: self.r_one,
            r_two: self.r_two,
            r_three: self.r_three,
            reactivity: self.reactivity,
        }
    }

    /// Whether the metadata fields of this configuration are those of `metadata`.
    pub open spec fn has_metadata(self, metadata: ReserveMetadata) -> bool {
        &&& self.decimals == metadata.decimals
        &&& self.c_factor == metadata.c_factor
        &&& self.l_factor == metadata.l_factor
        &&& self.util == metadata.util
        &&& self.max_util == metadata.max_util
        &&& self.r_one == metadata.r_one
        &&& self.r_two == metadata.r_two
        &&& self.r_three == metadata.r_three
        &&& self.reactivity == metadata.reactivity
    }
}

} // verus!
