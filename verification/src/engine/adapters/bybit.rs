//! What is particular to Bybit: its names for sides, order types and
//! states, its addresses, its limits and its error codes.

use vstd::prelude::*;
use vstd::string::*;
use crate::common::text::{signed_digits, signed_text, str_equal};
use crate::engine::adapters::adapter::AdapterTrait;
use crate::engine::executor::types::{OrderSide, OrderStatus, OrderType, TimeInForce};

verus! {

pub struct BybitAdapter {
    /// How many requests the exchange takes, by the name of the limit.
    pub rate_limits: Vec<(String, u32)>,
}

/// What the error code of Bybit means.
pub open spec fn bybit_error_text(code: i32) -> Seq<char> {
    if code == 10001 {
        "Parameter error"@
    } else if code == 10002 {
        "Request expired"@
    } else if code == 10003 {
        "API key error"@
    } else if code == 10004 {
        "Sign error"@
    } else if code == 10005 {
        "Permission denied"@
    } else if code == 10006 {
        "Too many requests"@
    } else if code == 10007 {
        "Invalid request"@
    } else if code == 10010 {
        "Server error"@
    } else if code == 20001 {
        "Order not exists"@
    } else if code == 20003 {
        "Operation not allowed"@
    } else if code == 20004 {
        "Duplicate order"@
    } else if code == 20005 {
        "Order amount too small"@
    } else if code == 20006 {
        "Order amount exceed limit"@
    } else if code == 20007 {
        "Order cancelled"@
    } else if code == 30001 {
        "Position not exists"@
    } else if code == 30003 {
        "Insufficient balance"@
    } else {
        "Error code: "@ + signed_digits(code as int)
    }
}

/// The name of an order type with Bybit.
pub open spec fn bybit_order_type(order_type: OrderType) -> Seq<char> {
    match order_type {
        OrderType::Market => "Market"@,
        OrderType::Limit => "Limit"@,
        OrderType::StopMarket => "Stop"@,
        OrderType::StopLimit => "StopLimit"@,
    }
}

/// The name of a side with Bybit.
pub open spec fn bybit_side(side: OrderSide) -> Seq<char> {
    match side {
        OrderSide::Buy => "Buy"@,
        OrderSide::Sell => "Sell"@,
    }
}

/// The name of a time in force with Bybit.
pub open spec fn bybit_time_in_force(tif: TimeInForce) -> Seq<char> {
    match tif {
        TimeInForce::GTC => "GTC"@,
        TimeInForce::IOC => "IOC"@,
        TimeInForce::FOK => "FOK"@,
        TimeInForce::GTX => "PostOnly"@,
    }
}

/// The state that Bybit names; new for a name that is not known.
pub open spec fn bybit_order_status(name: Seq<char>) -> OrderStatus {
    if name == "PartiallyFilled"@ {
        OrderStatus::PartiallyFilled
    } else if name == "Filled"@ {
        OrderStatus::Filled
    } else if name == "Cancelled"@ {
        OrderStatus::Canceled
    } else if name == "Rejected"@ {
        OrderStatus::Rejected
    } else {
        OrderStatus::New
    }
}

/// The address of a stream of a market; empty for a market that is not
/// known.
pub open spec fn bybit_ws_url(market_type: Seq<char>, stream_type: Seq<char>) -> Seq<char> {
    if market_type == "spot"@ {
        "wss://stream.bybit.com/v5/public/spot"@
    } else if market_type == "futures"@ {
        "wss://stream.bybit.com/v5/public/linear"@
    } else {
        Seq::empty()
    }
}

impl BybitAdapter {
    /// The adapter holds the limits of the exchange.
    pub open spec fn has_usual_limits(self) -> bool {
        &&& self.rate_limits@.len() == 2
        &&& self.rate_limits@[0].0@ == "orders_per_second"@ && self.rate_limits@[0].1 == 10
        &&& self.rate_limits@[1].0@ == "api_rate_limit"@ && self.rate_limits@[1].1 == 100
    }

    /// The adapter with the limits of the exchange.
    pub fn new() -> (r: BybitAdapter)
        ensures
            r.has_usual_limits(),
    {
        let mut rate_limits: Vec<(String, u32)> = Vec::new();
        rate_limits.push((String::from_str("orders_per_second"), 10));
        rate_limits.push((String::from_str("api_rate_limit"), 100));
        BybitAdapter { rate_limits }
    }

    /// The name of an order type with the exchange.
    pub fn format_order_type(&self, order_type: OrderType) -> (r: &'static str)
        ensures
            r@ == bybit_order_type(order_type),
    {
        match order_type {
            OrderType::Market => "Market",
            OrderType::Limit => "Limit",
            OrderType::StopMarket => "Stop",
            OrderType::StopLimit => "StopLimit",
        }
    }

    /// The name of a side with the exchange.
    pub fn format_side(&self, side: OrderSide) -> (r: &'static str)
        ensures
            r@ == bybit_side(side),
    {
        match side {
            OrderSide::Buy => "Buy",
            OrderSide::Sell => "Sell",
        }
    }

    /// The name of a time in force with the exchange.
    pub fn format_time_in_force(&self, tif: TimeInForce) -> (r: &'static str)
        ensures
            r@ == bybit_time_in_force(tif),
    {
        match tif {
            TimeInForce::GTC => "GTC",
            TimeInForce::IOC => "IOC",
            TimeInForce::FOK => "FOK",
            TimeInForce::GTX => "PostOnly",
        }
    }

    /// The state that the exchange names.
    pub fn parse_order_status(&self, name: &str) -> (r: OrderStatus)
        ensures
            r == bybit_order_status(name@),
    {
        if str_equal(name, "PartiallyFilled") {
            OrderStatus::PartiallyFilled
        } else if str_equal(name, "Filled") {
            OrderStatus::Filled
        } else if str_equal(name, "Cancelled") {
            OrderStatus::Canceled
        } else if str_equal(name, "Rejected") {
            OrderStatus::Rejected
        } else {
            OrderStatus::New
        }
    }
}

impl AdapterTrait for BybitAdapter {
    open spec fn name_spec(&self) -> Seq<char> {
        "bybit"@
    }

    open spec fn ws_url_spec(&self, market_type: Seq<char>, stream_type: Seq<char>) -> Seq<char> {
        bybit_ws_url(market_type, stream_type)
    }

    open spec fn error_text_spec(&self, code: i32) -> Seq<char> {
        bybit_error_text(code)
    }

    open spec fn limits_spec(&self) -> Seq<(String, u32)> {
        self.rate_limits@
    }

    fn exchange_name(&self) -> (r: &'static str) {
        "bybit"
    }

    fn format_ws_url(&self, market_type: &str, stream_type: &str) -> (r: String) {
        if str_equal(market_type, "spot") {
            String::from_str("wss://stream.bybit.com/v5/public/spot")
        } else if str_equal(market_type, "futures") {
            String::from_str("wss://stream.bybit.com/v5/public/linear")
        } else {
            String::new()
        }
    }

    fn map_error_code(&self, code: i32) -> (r: String) {
        if code == 10001 {
            String::from_str("Parameter error")
        } else if code == 10002 {
            String::from_str("Request expired")
        } else if code == 10003 {
            String::from_str("API key error")
        } else if code == 10004 {
            String::from_str("Sign error")
        } else if code == 10005 {
            String::from_str("Permission denied")
        } else if code == 10006 {
            String::from_str("Too many requests")
        } else if code == 10007 {
            String::from_str("Invalid request")
        } else if code == 10010 {
            String::from_str("Server error")
        } else if code == 20001 {
            String::from_str("Order not exists")
        } else if code == 20003 {
            String::from_str("Operation not allowed")
        } else if code == 20004 {
            String::from_str("Duplicate order")
        } else if code == 20005 {
            String::from_str("Order amount too small")
        } else if code == 20006 {
            String::from_str("Order amount exceed limit")
        } else if code == 20007 {
            String::from_str("Order cancelled")
        } else if code == 30001 {
            String::from_str("Position not exists")
        } else if code == 30003 {
            String::from_str("Insufficient balance")
        } else {
            let mut text = String::from_str("Error code: ");
            text.append(signed_text(code as i64).as_str());
            text
        }
    }

    fn get_rate_limits(&self) -> (r: Vec<(String, u32)>) {
        let mut out: Vec<(String, u32)> = Vec::new();
        let mut i: usize = 0;
        while i < self.rate_limits.len()
            invariant
                i <= self.rate_limits@.len(),
                out@ == self.rate_limits@.subrange(0, i as int),
            decreases self.rate_limits@.len() - i,
        {
            out.push((self.rate_limits[i].0.clone(), self.rate_limits[i].1));
            i += 1;
            proof {
                assert(out@ =~= self.rate_limits@.subrange(0, i as int));
            }
        }
        proof {
            assert(self.rate_limits@.subrange(0, self.rate_limits@.len() as int) =~= self.rate_limits@);
        }
        out
    }
}

} // verus!
