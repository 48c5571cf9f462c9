//! The connections to the exchanges: what is known of each, and what its
//! runner does upon each thing that happens to it.

pub mod binance_connection;
pub mod connection;
pub mod keepalive;
pub mod message;
pub mod okex_connection;
pub mod pool;
