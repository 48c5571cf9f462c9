//! The two pipelines of the processor and the state that they share.

pub mod pipeline;
pub mod shared_state;
