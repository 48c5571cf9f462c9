//! The signal collector: the table of latest signals, the triggers that
//! read it, and the dispatch of each incoming signal to its triggers.

pub mod config;
pub mod dispatcher;
pub mod event_generator;
pub mod signal_manager;
pub mod trigger;
