//! The pre/post processor: orders, risk control and the two pipelines.

pub mod order;
pub mod pipeline;
pub mod risk_control;
pub mod service;
