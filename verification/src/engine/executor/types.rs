//! What the executor takes and gives.

use vstd::prelude::*;
use crate::common::decimal::Decimal;

verus! {

#[derive(Debug, Clone, Copy, PartialEq, Eq, Structural)]
pub enum OrderSide {
    Buy,
    Sell,
}

#[derive(Debug, Clone, Copy, PartialEq, Eq, Structural)]
pub enum OrderType {
    Market,
    Limit,
    StopMarket,
    StopLimit,
}

#[derive(Debug, Clone, Copy, PartialEq, Eq, Structural)]
pub enum TimeInForce {
    /// Good till cancel.
    GTC,
    /// Immediate or cancel.
    IOC,
    /// Fill or kill.
    FOK,
    /// Good till crossing.
    GTX,
}

#[derive(Debug, Clone, Copy, PartialEq, Eq, Structural)]
pub enum OrderStatus {
    New,
    PartiallyFilled,
    Filled,
    Canceled,
    Rejected,
    Expired,
}

/// An order to execute.
#[derive(Debug)]
pub struct ExecutionCommand {
    /// The id of the command, a UUID as a number.
    pub id: u128,
    pub exchange: String,
    /// `spot` or `futures`.
    pub market_type: String,
    pub symbol: String,
    pub side: OrderSide,
    pub order_type: OrderType,
    pub quantity: Decimal,
    pub price: Option<Decimal>,
    pub time_in_force: TimeInForce,
    /// The client order id to use, where the sender chose one.
    pub client_order_id: Option<String>,
    pub reduce_only: bool,
    pub post_only: bool,
}

/// A signed order, ready for the exchange.
#[derive(Debug)]
pub struct OrderRequest {
    pub symbol: String,
    pub side: OrderSide,
    pub order_type: OrderType,
    pub quantity: Decimal,
    pub price: Option<Decimal>,
    pub time_in_force: TimeInForce,
    pub client_order_id: String,
    /// Milliseconds since the Unix epoch.
    pub timestamp: i64,
    pub signature: String,
}

/// What one connection answered.
#[derive(Debug)]
pub struct OrderResponse {
    pub order_id: String,
    pub client_order_id: String,
    pub symbol: String,
    pub status: OrderStatus,
    pub executed_qty: Decimal,
    pub executed_price: Option<Decimal>,
    /// Milliseconds since the Unix epoch.
    pub timestamp: i64,
    pub error: Option<String>,
}

/// The outcome of the execution of a command.
#[derive(Debug)]
pub struct ExecutionResult {
    pub command_id: u128,
    pub success: bool,
    pub responses: Vec<OrderResponse>,
    pub selected_response: Option<OrderResponse>,
    pub error: Option<String>,
}

impl ExecutionCommand {
    /// The figures are within the limits of their representation.
    pub open spec fn wf(self) -> bool {
        self.quantity.wf() && (self.price matches Some(p) ==> p.wf())
    }
}

impl Clone for OrderResponse {
    fn clone(&self) -> (r: Self)
        ensures
            r == *self,
    {
        OrderResponse {
            order_id: self.order_id.clone(),
            client_order_id: self.client_order_id.clone(),
            symbol: self.symbol.clone(),
            status: self.status,
            executed_qty: self.executed_qty,
            executed_price: self.executed_price,
            timestamp: self.timestamp,
            error: match &self.error {
                Some(e) => Some(e.clone()),
                None => None,
            },
        }
    }
}

} // verus!
