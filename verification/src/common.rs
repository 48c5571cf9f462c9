//! Types and helpers shared by every process of the system.

pub mod binary;
pub mod calendar;
pub mod config;
pub mod decimal;
pub mod events;
pub mod frame;
pub mod idlist;
pub mod ieee;
pub mod messages;
pub mod signals;
pub mod table;
pub mod text;
pub mod types;
pub mod wire;
