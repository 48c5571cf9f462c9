//! The trading engine: connection health, connection selection, the
//! keepalive of the connection runners, and the order executor.

pub mod adapters;
pub mod config;
pub mod executor;
pub mod health;
pub mod shared_map;
pub mod ws_pool;
