//! What is particular to OKX: its names for sides, order types and
//! states, its addresses, its limits and its error codes.

use vstd::prelude::*;
use vstd::string::*;
use crate::common::text::{signed_digits, signed_text};
use crate::engine::adapters::adapter::AdapterTrait;
use crate::engine::executor::types::{OrderSide, OrderType};

verus! {

pub struct OkexAdapter {
    /// How many requests the exchange takes, by the name of the limit.
    pub rate_limits: Vec<(String, u32)>,
}

/// What the error code of OKX means.
pub open spec fn okex_error_text(code: i32) -> Seq<char> {
    if code == 1 {
        "Operation failed"@
    } else if code == 50000 {
        "General error"@
    } else if code == 50001 {
        "Service temporarily unavailable"@
    } else if code == 50002 {
        "Service busy"@
    } else if code == 50004 {
        "Request timeout"@
    } else if code == 50005 {
        "Too many requests"@
    } else if code == 50006 {
        "Invalid request"@
    } else if code == 50007 {
        "Invalid API key"@
    } else if code == 50008 {
        "Invalid signature"@
    } else if code == 51000 {
        "Invalid instrument"@
    } else if code == 51001 {
        "Instrument does not exist"@
    } else if code == 51006 {
        "Invalid order price"@
    } else if code == 51008 {
        "Order amount exceeds limit"@
    } else if code == 51009 {
        "Order placement failed"@
    } else if code == 51010 {
        "Insufficient balance"@
    } else {
        "Error code: "@ + signed_digits(code as int)
    }
}

/// The name of an order type with OKX.
pub open spec fn okex_order_type(order_type: OrderType) -> Seq<char> {
    match order_type {
        OrderType::Market => "market"@,
        OrderType::Limit => "limit"@,
        OrderType::StopMarket => "trigger"@,
        OrderType::StopLimit => "trigger"@,
    }
}

/// The name of a side with OKX.
pub open spec fn okex_side(side: OrderSide) -> Seq<char> {
    match side {
        OrderSide::Buy => "buy"@,
        OrderSide::Sell => "sell"@,
    }
}

/// The address of a stream.
pub open spec fn okex_ws_url(market_type: Seq<char>, stream_type: Seq<char>) -> Seq<char> {
    "wss://ws.okx.com:8443/ws/v5/"@ + stream_type
}

impl OkexAdapter {
    /// The adapter holds the limits of the exchange.
    pub open spec fn has_usual_limits(self) -> bool {
        &&& self.rate_limits@.len() == 2
        &&& self.rate_limits@[0].0@ == "orders_per_second"@ && self.rate_limits@[0].1 == 10
        &&& self.rate_limits@[1].0@ == "orders_per_2seconds"@ && self.rate_limits@[1].1 == 20
    }

    /// The adapter with the limits of the exchange.
    pub fn new() -> (r: OkexAdapter)
        ensures
            r.has_usual_limits(),
    {
        let mut rate_limits: Vec<(String, u32)> = Vec::new();
        rate_limits.push((String::from_str("orders_per_second"), 10));
        rate_limits.push((String::from_str("orders_per_2seconds"), 20));
        OkexAdapter { rate_limits }
    }

    /// The name of an order type with the exchange.
    pub fn format_order_type(&self, order_type: OrderType) -> (r: &'static str)
        ensures
            r@ == okex_order_type(order_type),
    {
        match order_type {
            OrderType::Market => "market",
            OrderType::Limit => "limit",
            OrderType::StopMarket => "trigger",
            OrderType::StopLimit => "trigger",
        }
    }

    /// The name of a side with the exchange.
    pub fn format_side(&self, side: OrderSide) -> (r: &'static str)
        ensures
            r@ == okex_side(side),
    {
        match side {
            OrderSide::Buy => "buy",
            OrderSide::Sell => "sell",
        }
    }
}

impl AdapterTrait for OkexAdapter {
    open spec fn name_spec(&self) -> Seq<char> {
        "okex"@
    }

    open spec fn ws_url_spec(&self, market_type: Seq<char>, stream_type: Seq<char>) -> Seq<char> {
        okex_ws_url(market_type, stream_type)
    }

    open spec fn error_text_spec(&self, code: i32) -> Seq<char> {
        okex_error_text(code)
    }

    open spec fn limits_spec(&self) -> Seq<(String, u32)> {
        self.rate_limits@
    }

    fn exchange_name(&self) -> (r: &'static str) {
        "okex"
    }

    fn format_ws_url(&self, market_type: &str, stream_type: &str) -> (r: String) {
        let mut url = String::from_str("wss://ws.okx.com:8443/ws/v5/");
        url.append(stream_type);
        url
    }

    fn map_error_code(&self, code: i32) -> (r: String) {
        if code == 1 {
            String::from_str("Operation failed")
        } else if code == 50000 {
            String::from_str("General error")
        } else if code == 50001 {
            String::from_str("Service temporarily unavailable")
        } else if code == 50002 {
            String::from_str("Service busy")
        } else if code == 50004 {
            String::from_str("Request timeout")
        } else if code == 50005 {
            String::from_str("Too many requests")
        } else if code == 50006 {
            String::from_str("Invalid request")
        } else if code == 50007 {
            String::from_str("Invalid API key")
        } else if code == 50008 {
            String::from_str("Invalid signature")
        } else if code == 51000 {
            String::from_str("Invalid instrument")
        } else if code == 51001 {
            String::from_str("Instrument does not exist")
        } else if code == 51006 {
            String::from_str("Invalid order price")
        } else if code == 51008 {
            String::from_str("Order amount exceeds limit")
        } else if code == 51009 {
            String::from_str("Order placement failed")
        } else if code == 51010 {
            String::from_str("Insufficient balance")
        } else {
            let mut text = String::from_str("Error code: ");
            text.append(signed_text(code as i64).as_str());
            text
        }
    }

    fn get_rate_limits(&self) -> (r: Vec<(String, u32)>) {
        let mut out: Vec<(String, u32)> = Vec::new();
        let mut i: usize = 0;
        while i < self.rate_limits.len()
            invariant
                i <= self.rate_limits@.len(),
                out@ == self.rate_limits@.subrange(0, i as int),
            decreases self.rate_limits@.len() - i,
        {
            out.push((self.rate_limits[i].0.clone(), self.rate_limits[i].1));
            i += 1;
            proof {
                assert(out@ =~= self.rate_limits@.subrange(0, i as int));
            }
        }
        proof {
            assert(self.rate_limits@.subrange(0, self.rate_limits@.len() as int) =~= self.rate_limits@);
        }
        out
    }
}

} // verus!
