//! Risk control: the rules that a signal must pass, and the risk state
//! that execution reports feed.

pub mod risk_rules;
pub mod risk_state;
