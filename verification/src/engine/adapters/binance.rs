//! What is particular to Binance: its names for sides, order types and
//! states, its addresses, its limits and its error codes.

use vstd::prelude::*;
use vstd::string::*;
use crate::common::text::{signed_digits, signed_text, str_equal};
use crate::engine::adapters::adapter::AdapterTrait;
use crate::engine::executor::types::{OrderSide, OrderStatus, OrderType, TimeInForce};

verus! {

pub struct BinanceAdapter {
    /// How many requests the exchange takes, by the name of the limit.
    pub rate_limits: Vec<(String, u32)>,
}

/// What the error code of Binance means.
pub open spec fn binance_error_text(code: i32) -> Seq<char> {
    if code == -1000 {
        "Unknown error"@
    } else if code == -1001 {
        "Disconnected"@
    } else if code == -1002 {
        "Unauthorized"@
    } else if code == -1003 {
        "Too many requests"@
    } else if code == -1013 {
        "Invalid quantity"@
    } else if code == -1014 {
        "Unknown order"@
    } else if code == -1015 {
        "Too many orders"@
    } else if code == -1016 {
        "Service unavailable"@
    } else if code == -1021 {
        "Invalid timestamp"@
    } else if code == -1022 {
        "Invalid signature"@
    } else if code == -2010 {
        "Insufficient balance"@
    } else if code == -2011 {
        "Order canceled"@
    } else {
        "Error code: "@ + signed_digits(code as int)
    }
}

/// The name of an order type with Binance.
pub open spec fn binance_order_type(order_type: OrderType) -> Seq<char> {
    match order_type {
        OrderType::Market => "MARKET"@,
        OrderType::Limit => "LIMIT"@,
        OrderType::StopMarket => "STOP_MARKET"@,
        OrderType::StopLimit => "STOP_LIMIT"@,
    }
}

/// The name of a side with Binance.
pub open spec fn binance_side(side: OrderSide) -> Seq<char> {
    match side {
        OrderSide::Buy => "BUY"@,
        OrderSide::Sell => "SELL"@,
    }
}

/// The name of a time in force with Binance.
pub open spec fn binance_time_in_force(tif: TimeInForce) -> Seq<char> {
    match tif {
        TimeInForce::GTC => "GTC"@,
        TimeInForce::IOC => "IOC"@,
        TimeInForce::FOK => "FOK"@,
        TimeInForce::GTX => "GTX"@,
    }
}

/// The state that Binance names; new for a name that is not known.
pub open spec fn binance_order_status(name: Seq<char>) -> OrderStatus {
    if name == "PARTIALLY_FILLED"@ {
        OrderStatus::PartiallyFilled
    } else if name == "FILLED"@ {
        OrderStatus::Filled
    } else if name == "CANCELED"@ {
        OrderStatus::Canceled
    } else if name == "REJECTED"@ {
        OrderStatus::Rejected
    } else if name == "EXPIRED"@ {
        OrderStatus::Expired
    } else {
        OrderStatus::New
    }
}

/// The address of a stream of a market; empty for a market that is not
/// known.
pub open spec fn binance_ws_url(market_type: Seq<char>, stream_type: Seq<char>) -> Seq<char> {
    if market_type == "spot"@ {
        "wss://stream.binance.com:9443/ws/"@ + stream_type
    } else if market_type == "futures"@ {
        "wss://fstream.binance.com/ws/"@ + stream_type
    } else {
        Seq::empty()
    }
}

impl BinanceAdapter {
    /// The adapter holds the limits of the exchange.
    pub open spec fn has_usual_limits(self) -> bool {
        &&& self.rate_limits@.len() == 3
        &&& self.rate_limits@[0].0@ == "orders_per_second"@ && self.rate_limits@[0].1 == 10
        &&& self.rate_limits@[1].0@ == "orders_per_minute"@ && self.rate_limits@[1].1 == 1200
        &&& self.rate_limits@[2].0@ == "weight_per_minute"@ && self.rate_limits@[2].1 == 6000
    }

    /// The adapter with the limits of the exchange.
    pub fn new() -> (r: BinanceAdapter)
        ensures
            r.has_usual_limits(),
    {
        let mut rate_limits: Vec<(String, u32)> = Vec::new();
        rate_limits.push((String::from_str("orders_per_second"), 10));
        rate_limits.push((String::from_str("orders_per_minute"), 1200));
        rate_limits.push((String::from_str("weight_per_minute"), 6000));
        BinanceAdapter { rate_limits }
    }

    /// The name of an order type with the exchange.
    pub fn format_order_type(&self, order_type: OrderType) -> (r: &'static str)
        ensures
            r@ == binance_order_type(order_type),
    {
        match order_type {
            OrderType::Market => "MARKET",
            OrderType::Limit => "LIMIT",
            OrderType::StopMarket => "STOP_MARKET",
            OrderType::StopLimit => "STOP_LIMIT",
        }
    }

    /// The name of a side with the exchange.
    pub fn format_side(&self, side: OrderSide) -> (r: &'static str)
        ensures
            r@ == binance_side(side),
    {
        match side {
            OrderSide::Buy => "BUY",
            OrderSide::Sell => "SELL",
        }
    }

    /// The name of a time in force with the exchange.
    pub fn format_time_in_force(&self, tif: TimeInForce) -> (r: &'static str)
        ensures
            r@ == binance_time_in_force(tif),
    {
        match tif {
            TimeInForce::GTC => "GTC",
            TimeInForce::IOC => "IOC",
            TimeInForce::FOK => "FOK",
            TimeInForce::GTX => "GTX",
        }
    }

    /// The state that the exchange names.
    pub fn parse_order_status(&self, name: &str) -> (r: OrderStatus)
        ensures
            r == binance_order_status(name@),
    {
        if str_equal(name, "PARTIALLY_FILLED") {
            OrderStatus::PartiallyFilled
        } else if str_equal(name, "FILLED") {
            OrderStatus::Filled
        } else if str_equal(name, "CANCELED") {
            OrderStatus::Canceled
        } else if str_equal(name, "REJECTED") {
            OrderStatus::Rejected
        } else if str_equal(name, "EXPIRED") {
            OrderStatus::Expired
        } else {
            OrderStatus::New
        }
    }
}

impl AdapterTrait for BinanceAdapter {
    open spec fn name_spec(&self) -> Seq<char> {
        "binance"@
    }

    open spec fn ws_url_spec(&self, market_type: Seq<char>, stream_type: Seq<char>) -> Seq<char> {
        binance_ws_url(market_type, stream_type)
    }

    open spec fn error_text_spec(&self, code: i32) -> Seq<char> {
        binance_error_text(code)
    }

    open spec fn limits_spec(&self) -> Seq<(String, u32)> {
        self.rate_limits@
    }

    fn exchange_name(&self) -> (r: &'static str) {
        "binance"
    }

    fn format_ws_url(&self, market_type: &str, stream_type: &str) -> (r: String) {
        if str_equal(market_type, "spot") {
            let mut url = String::from_str("wss://stream.binance.com:9443/ws/");
            url.append(stream_type);
            url
        } else if str_equal(market_type, "futures") {
            let mut url = String::from_str("wss://fstream.binance.com/ws/");
            url.append(stream_type);
            url
        } else {
            String::new()
        }
    }

    fn map_error_code(&self, code: i32) -> (r: String) {
        if code == -1000 {
            String::from_str("Unknown error")
        } else if code == -1001 {
            String::from_str("Disconnected")
        } else if code == -1002 {
            String::from_str("Unauthorized")
        } else if code == -1003 {
            String::from_str("Too many requests")
        } else if code == -1013 {
            String::from_str("Invalid quantity")
        } else if code == -1014 {
            String::from_str("Unknown order")
        } else if code == -1015 {
            String::from_str("Too many orders")
        } else if code == -1016 {
            String::from_str("Service unavailable")
        } else if code == -1021 {
            String::from_str("Invalid timestamp")
        } else if code == -1022 {
            String::from_str("Invalid signature")
        } else if code == -2010 {
            String::from_str("Insufficient balance")
        } else if code == -2011 {
            String::from_str("Order canceled")
        } else {
            let mut text = String::from_str("Error code: ");
            text.append(signed_text(code as i64).as_str());
            text
        }
    }

    fn get_rate_limits(&self) -> (r: Vec<(String, u32)>) {
        let mut out: Vec<(String, u32)> = Vec::new();
        let mut i: usize = 0;
        while i < self.rate_limits.len()
            invariant
                i <= self.rate_limits@.len(),
                out@ == self.rate_limits@.subrange(0, i as int),
            decreases self.rate_limits@.len() - i,
        {
            out.push((self.rate_limits[i].0.clone(), self.rate_limits[i].1));
            i += 1;
            proof {
                assert(out@ =~= self.rate_limits@.subrange(0, i as int));
            }
        }
        proof {
            assert(self.rate_limits@.subrange(0, self.rate_limits@.len() as int) =~= self.rate_limits@);
        }
        out
    }
}

} // verus!
