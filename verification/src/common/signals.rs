//! Signals by kind, as the upstream sources publish them, and the slot
//! that the signal table keeps per kind.

use vstd::prelude::*;
use crate::common::types::{FundingDirection, OrderResponseStatus, Real, RiskLevel, Signal, SignalType};

verus! {

#[derive(Debug)]
pub struct AdaptiveSpreadDeviationSignal {
    pub exchange_id: u32,
    pub symbol_id: u32,
    pub spread_percentile: Real,
    pub current_spread: Real,
    pub threshold_percentile: Real,
    pub timestamp: i64,
}

#[derive(Debug)]
pub struct FixedSpreadDeviationSignal {
    pub exchange_id: u32,
    pub symbol_id: u32,
    pub current_spread: Real,
    pub fixed_threshold: Real,
    pub timestamp: i64,
}

#[derive(Debug)]
pub struct FundingRateDirectionSignal {
    pub exchange_id: u32,
    pub symbol_id: u32,
    pub funding_rate: Real,
    pub direction: FundingDirection,
    pub timestamp: i64,
}

#[derive(Debug)]
pub struct RealTimeFundingRiskSignal {
    pub exchange_id: u32,
    pub symbol_id: u32,
    pub risk_level: RiskLevel,
    pub funding_rate: Real,
    pub position_cost: Real,
    pub timestamp: i64,
}

#[derive(Debug)]
pub struct OrderResponseSignal {
    pub order_id: String,
    pub exchange_id: u32,
    pub symbol_id: u32,
    pub status: OrderResponseStatus,
    pub timestamp: i64,
}

/// The slot of one signal kind in the signal table.
#[derive(Debug)]
pub struct SignalStatus {
    pub signal_type: SignalType,
    /// The latest signal of the kind, if any has arrived.
    pub last_signal: Option<Signal>,
    /// The triggers that subscribe to the kind, in registration order.
    pub trigger_indices: Vec<usize>,
    /// When the slot was last written, in milliseconds since the Unix epoch.
    pub last_updated: i64,
}

} // verus!
