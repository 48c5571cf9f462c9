//! Control plane of a multi-process trading system: the wire codec, the
//! signal table with its triggers, the order lifecycle with risk control,
//! and the connection pool logic of the trading engine.
//!
//! Every function here is pure with respect to the outside world: clocks,
//! sockets and the message bus are the caller's business. Time enters as a
//! millisecond count, money as [`common::decimal::Decimal`].

pub mod common;
pub mod processor;
pub mod engine;
pub mod collector;
