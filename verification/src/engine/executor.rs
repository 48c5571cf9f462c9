//! The order executor: commands become signed requests, requests go out
//! to the chosen connections, and the best response decides the outcome.

pub mod executor;
pub mod idempotent;
pub mod order_builder;
pub mod response_handler;
pub mod signer;
pub mod types;
