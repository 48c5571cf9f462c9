//! The trading events that triggers emit.

use vstd::prelude::*;
use crate::common::types::{Exchange, OrderType, Priority, Real, Side, Symbol, TriggerType};

verus! {

#[derive(Debug)]
pub struct OpenPositionEvent {
    pub symbol: Symbol,
    pub exchange: Exchange,
    pub side: Side,
    pub quantity: Real,
    pub order_type: OrderType,
    /// Absent for market orders.
    pub price: Option<Real>,
    pub trigger_type: TriggerType,
    pub reason: String,
    /// Milliseconds since the Unix epoch.
    pub timestamp: i64,
}

#[derive(Debug)]
pub struct ClosePositionEvent {
    pub symbol: Symbol,
    pub exchange: Exchange,
    pub side: Side,
    pub quantity: Real,
    pub order_type: OrderType,
    /// Absent for market orders.
    pub price: Option<Real>,
    pub trigger_type: TriggerType,
    pub reason: String,
    /// Milliseconds since the Unix epoch.
    pub timestamp: i64,
}

#[derive(Debug)]
pub struct HedgePositionEvent {
    pub symbol: Symbol,
    pub primary_exchange: Exchange,
    pub hedge_exchange: Exchange,
    pub side: Side,
    pub quantity: Real,
    pub trigger_type: TriggerType,
    pub reason: String,
    /// Milliseconds since the Unix epoch.
    pub timestamp: i64,
}

#[derive(Debug)]
pub struct CancelOrderEvent {
    pub order_id: String,
    pub symbol: Symbol,
    pub exchange: Exchange,
    pub reason: String,
    /// Milliseconds since the Unix epoch.
    pub timestamp: i64,
}

#[derive(Debug)]
pub struct ModifyOrderEvent {
    pub order_id: String,
    pub symbol: Symbol,
    pub exchange: Exchange,
    pub new_price: Option<Real>,
    pub new_quantity: Option<Real>,
    pub reason: String,
    /// Milliseconds since the Unix epoch.
    pub timestamp: i64,
}

#[derive(Debug)]
pub enum TradingEvent {
    OpenPosition(OpenPositionEvent),
    ClosePosition(ClosePositionEvent),
    HedgePosition(HedgePositionEvent),
    CancelOrder(CancelOrderEvent),
    ModifyOrder(ModifyOrderEvent),
}

/// A trading event with each string as its sequence of characters.
pub enum EventView {
    OpenPosition {
        symbol: Symbol,
        exchange: Exchange,
        side: Side,
        quantity: Real,
        order_type: OrderType,
        price: Option<Real>,
        trigger_type: TriggerType,
        reason: Seq<char>,
        timestamp: i64,
    },
    ClosePosition {
        symbol: Symbol,
        exchange: Exchange,
        side: Side,
        quantity: Real,
        order_type: OrderType,
        price: Option<Real>,
        trigger_type: TriggerType,
        reason: Seq<char>,
        timestamp: i64,
    },
    HedgePosition {
        symbol: Symbol,
        primary_exchange: Exchange,
        hedge_exchange: Exchange,
        side: Side,
        quantity: Real,
        trigger_type: TriggerType,
        reason: Seq<char>,
        timestamp: i64,
    },
    CancelOrder { order_id: Seq<char>, symbol: Symbol, exchange: Exchange, reason: Seq<char>, timestamp: i64 },
    ModifyOrder {
        order_id: Seq<char>,
        symbol: Symbol,
        exchange: Exchange,
        new_price: Option<Real>,
        new_quantity: Option<Real>,
        reason: Seq<char>,
        timestamp: i64,
    },
}

impl View for TradingEvent {
    type V = EventView;

    open spec fn view(&self) -> EventView {
        match *self {
            TradingEvent::OpenPosition(e) => EventView::OpenPosition {
                symbol: e.symbol,
                exchange: e.exchange,
                side: e.side,
                quantity: e.quantity,
                order_type: e.order_type,
                price: e.price,
                trigger_type: e.trigger_type,
                reason: e.reason@,
                timestamp: e.timestamp,
            },
            TradingEvent::ClosePosition(e) => EventView::ClosePosition {
                symbol: e.symbol,
                exchange: e.exchange,
                side: e.side,
                quantity: e.quantity,
                order_type: e.order_type,
                price: e.price,
                trigger_type: e.trigger_type,
                reason: e.reason@,
                timestamp: e.timestamp,
            },
            TradingEvent::HedgePosition(e) => EventView::HedgePosition {
                symbol: e.symbol,
                primary_exchange: e.primary_exchange,
                hedge_exchange: e.hedge_exchange,
                side: e.side,
                quantity: e.quantity,
                trigger_type: e.trigger_type,
                reason: e.reason@,
                timestamp: e.timestamp,
            },
            TradingEvent::CancelOrder(e) => EventView::CancelOrder {
                order_id: e.order_id@,
                symbol: e.symbol,
                exchange: e.exchange,
                reason: e.reason@,
                timestamp: e.timestamp,
            },
            TradingEvent::ModifyOrder(e) => EventView::ModifyOrder {
                order_id: e.order_id@,
                symbol: e.symbol,
                exchange: e.exchange,
                new_price: e.new_price,
                new_quantity: e.new_quantity,
                reason: e.reason@,
                timestamp: e.timestamp,
            },
        }
    }
}

impl TradingEvent {
    /// How urgent the event is: closing, hedging and cancelling come
    /// first, modifying second, opening last.
    pub open spec fn priority_spec(self) -> Priority {
        match self {
            TradingEvent::ClosePosition(_) => Priority::High,
            TradingEvent::HedgePosition(_) => Priority::High,
            TradingEvent::CancelOrder(_) => Priority::High,
            TradingEvent::ModifyOrder(_) => Priority::Medium,
            TradingEvent::OpenPosition(_) => Priority::Low,
        }
    }

    /// How urgent the event is.
    pub fn priority(&self) -> (r: Priority)
        ensures
            r == self.priority_spec(),
    {
        match self {
            TradingEvent::ClosePosition(_) => Priority::High,
            TradingEvent::HedgePosition(_) => Priority::High,
            TradingEvent::CancelOrder(_) => Priority::High,
            TradingEvent::ModifyOrder(_) => Priority::Medium,
            TradingEvent::OpenPosition(_) => Priority::Low,
        }
    }
}

} // verus!
