//! The order lifecycle: the state machine, the order and its book, the
//! order manager and the arbitrage coordinator.

pub mod arbitrage;
pub mod order;
pub mod order_manager;
pub mod order_state;
pub mod priority_queue;
