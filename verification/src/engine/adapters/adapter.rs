//! What every exchange adapter offers, and the adapters by exchange.

use vstd::prelude::*;
use vstd::string::*;
use crate::common::text::str_equal;
use crate::engine::adapters::binance::BinanceAdapter;
use crate::engine::adapters::bybit::BybitAdapter;
use crate::engine::adapters::okex::OkexAdapter;

verus! {

/// What is particular to an exchange.
pub trait AdapterTrait {
    /// The name of the exchange.
    spec fn name_spec(&self) -> Seq<char>;

    /// The address of a stream of a market.
    spec fn ws_url_spec(&self, market_type: Seq<char>, stream_type: Seq<char>) -> Seq<char>;

    /// What an error code of the exchange means.
    spec fn error_text_spec(&self, code: i32) -> Seq<char>;

    /// How many requests the exchange takes, by the name of the limit.
    spec fn limits_spec(&self) -> Seq<(String, u32)>;

    /// The name of the exchange.
    fn exchange_name(&self) -> (r: &'static str)
        ensures
            r@ == self.name_spec(),
    ;

    /// The address of a stream of a market.
    fn format_ws_url(&self, market_type: &str, stream_type: &str) -> (r: String)
        ensures
            r@ == self.ws_url_spec(market_type@, stream_type@),
    ;

    /// What an error code of the exchange means.
    fn map_error_code(&self, code: i32) -> (r: String)
        ensures
            r@ == self.error_text_spec(code),
    ;

    /// How many requests the exchange takes, by the name of the limit.
    fn get_rate_limits(&self) -> (r: Vec<(String, u32)>)
        ensures
            r@ == self.limits_spec(),
    ;
}

/// The adapters of all exchanges.
pub struct ExchangeAdapter {
    pub binance: BinanceAdapter,
    pub okex: OkexAdapter,
    pub bybit: BybitAdapter,
}

/// Which adapter an exchange has, by its name.
#[derive(Debug, Clone, Copy, PartialEq, Eq, Structural)]
pub enum AdapterKind {
    Binance,
    Okex,
    Bybit,
}

/// The adapter of the exchange of the given name, if there is one.
pub open spec fn adapter_kind(exchange: Seq<char>) -> Option<AdapterKind> {
    if exchange == "binance"@ {
        Some(AdapterKind::Binance)
    } else if exchange == "okex"@ {
        Some(AdapterKind::Okex)
    } else if exchange == "bybit"@ {
        Some(AdapterKind::Bybit)
    } else {
        None
    }
}

impl ExchangeAdapter {
    /// The adapters of Binance, OKX and Bybit.
    pub fn new() -> (r: ExchangeAdapter)
        ensures
            r.binance.has_usual_limits(),
            r.okex.has_usual_limits(),
            r.bybit.has_usual_limits(),
    {
        ExchangeAdapter {
            binance: BinanceAdapter::new(),
            okex: OkexAdapter::new(),
            bybit: BybitAdapter::new(),
        }
    }

    /// Which adapter the exchange of the given name has.
    pub fn get_adapter(&self, exchange: &str) -> (r: Option<AdapterKind>)
        ensures
            r == adapter_kind(exchange@),
    {
        if str_equal(exchange, "binance") {
            Some(AdapterKind::Binance)
        } else if str_equal(exchange, "okex") {
            Some(AdapterKind::Okex)
        } else if str_equal(exchange, "bybit") {
            Some(AdapterKind::Bybit)
        } else {
            None
        }
    }

    /// The names of the exchanges that have an adapter.
    pub fn list_exchanges(&self) -> (r: Vec<String>)
        ensures
            r@.len() == 3,
            r@[0]@ == "binance"@,
            r@[1]@ == "okex"@,
            r@[2]@ == "bybit"@,
    {
        let mut out: Vec<String> = Vec::new();
        out.push(String::from_str("binance"));
        out.push(String::from_str("okex"));
        out.push(String::from_str("bybit"));
        out
    }
}

} // verus!
