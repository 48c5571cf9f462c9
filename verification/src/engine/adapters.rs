//! What is particular to each exchange.

pub mod adapter;
pub mod binance;
pub mod bybit;
pub mod okex;
pub mod replies;
