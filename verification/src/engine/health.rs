//! The health of the connections, and the choice among them.

pub mod connection_selector;
pub mod health_tracker;
