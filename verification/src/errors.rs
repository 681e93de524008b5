use vstd::prelude::*;

verus! {

/// Errors returned by the pool's configuration entry points.
#[derive(Clone, Copy, Debug, PartialEq, Eq, Structural)]
pub enum PoolError {
    /// The caller is not the pool's admin.
    NotAuthorized,
    /// The pool, or the reserve, was initialized before.
    AlreadyInitialized,
    /// The arguments given to pool initialization are out of range.
    InvalidPoolInitArgs,
    /// The reserve metadata violates one of its bounds.
    InvalidReserveMetadata,
    /// The pool's status forbids the operation.
    InvalidPoolStatus,
}

} // verus!
