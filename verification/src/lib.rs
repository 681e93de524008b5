//! Configuration and position-health logic of a lending pool.
pub mod errors;
pub mod ids;
pub mod reserve;
pub mod storage;
pub mod config;
pub mod balances;
pub mod positions;
pub mod model;
pub mod rules;
pub mod summaries;
