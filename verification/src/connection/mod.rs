//! Connections to a store.

pub mod pool;

pub use pool::{Pool, PoolConfig, PoolConnection};
