//! The making of a signed order request from a command.

use vstd::prelude::*;
use vstd::string::*;
use crate::common::decimal::{decimal_text, to_text};
use crate::common::text::{signed_digits, signed_text, str_equal};
use crate::engine::executor::signer::{
    base64_text, before_from, hex_text, keys_ascend, lemma_ascend_push, pairs_view, query_of,
    text_before, Signer,
};
use crate::engine::executor::types::{
    ExecutionCommand, OrderRequest, OrderSide, OrderType, TimeInForce,
};

verus! {

/// The text of the JSON object with the given members in the given
/// order, as `serde_json` writes it.
pub uninterp spec fn json_object_text(members: Seq<(Seq<char>, Seq<char>)>) -> Seq<char>;

/// Wraps `serde::Serializer::collect_map` on the serializer of
/// `serde_json`: the JSON object with the parameters as members, in the
/// order in which they are given.
#[verifier::external_body]
fn json_object(params: &Vec<(String, String)>) -> (r: String)
    ensures
        r@ == json_object_text(pairs_view(params@)),
{
    let mut out = serde_json::Serializer::new(Vec::new());
    let members = params.iter().map(|p| (p.0.as_str(), p.1.as_str()));
    match serde::Serializer::collect_map(&mut out, members) {
        Ok(_) => String::from_utf8(out.into_inner()).unwrap_or_default(),
        Err(_) => String::new(),
    }
}

pub open spec fn side_text(side: OrderSide) -> Seq<char> {
    match side {
        OrderSide::Buy => "BUY"@,
        OrderSide::Sell => "SELL"@,
    }
}

pub open spec fn order_type_text(order_type: OrderType) -> Seq<char> {
    match order_type {
        OrderType::Market => "MARKET"@,
        OrderType::Limit => "LIMIT"@,
        OrderType::StopMarket => "STOP_MARKET"@,
        OrderType::StopLimit => "STOP_LIMIT"@,
    }
}

pub open spec fn time_in_force_text(tif: TimeInForce) -> Seq<char> {
    match tif {
        TimeInForce::GTC => "GTC"@,
        TimeInForce::IOC => "IOC"@,
        TimeInForce::FOK => "FOK"@,
        TimeInForce::GTX => "GTX"@,
    }
}

/// The parameters of an order, in the order of their names:
/// `newClientOrderId`, `postOnly` where it is set, `price` where there is
/// one, `quantity`, `reduceOnly` where it is set, `side`, `symbol`,
/// `timeInForce`, `timestamp`, `type`.
pub open spec fn params_of(command: ExecutionCommand, client_order_id: Seq<char>, timestamp: i64) -> Seq<
    (Seq<char>, Seq<char>),
> {
    seq![("newClientOrderId"@, client_order_id)] + (if command.post_only {
        seq![("postOnly"@, "true"@)]
    } else {
        Seq::empty()
    }) + (match command.price {
        Some(p) => seq![("price"@, decimal_text(p))],
        None => Seq::empty(),
    }) + seq![("quantity"@, decimal_text(command.quantity))] + (if command.reduce_only {
        seq![("reduceOnly"@, "true"@)]
    } else {
        Seq::empty()
    }) + seq![
        ("side"@, side_text(command.side)),
        ("symbol"@, command.symbol@),
        ("timeInForce"@, time_in_force_text(command.time_in_force)),
        ("timestamp"@, signed_digits(timestamp as int)),
        ("type"@, order_type_text(command.order_type)),
    ]
}

/// The names of the parameters of an order, each before the ones that
/// can follow it.
pub proof fn lemma_names_in_order()
    ensures
        text_before("newClientOrderId"@, "postOnly"@),
        text_before("newClientOrderId"@, "price"@),
        text_before("newClientOrderId"@, "quantity"@),
        text_before("postOnly"@, "price"@),
        text_before("postOnly"@, "quantity"@),
        text_before("price"@, "quantity"@),
        text_before("quantity"@, "reduceOnly"@),
        text_before("quantity"@, "side"@),
        text_before("reduceOnly"@, "side"@),
        text_before("side"@, "symbol"@),
        text_before("symbol"@, "timeInForce"@),
        text_before("timeInForce"@, "timestamp"@),
        text_before("timestamp"@, "type"@),
{
    reveal_strlit("newClientOrderId");
    reveal_strlit("postOnly");
    reveal_strlit("price");
    reveal_strlit("quantity");
    reveal_strlit("reduceOnly");
    reveal_strlit("side");
    reveal_strlit("symbol");
    reveal_strlit("timeInForce");
    reveal_strlit("timestamp");
    reveal_strlit("type");
    reveal_with_fuel(before_from, 6);
}

/// The parameters of an order stand in the order of their keys, and no
/// key comes twice.
pub proof fn lemma_params_ascend(command: ExecutionCommand, client_order_id: Seq<char>, timestamp: i64)
    ensures
        keys_ascend(params_of(command, client_order_id, timestamp)),
{
    lemma_names_in_order();
    let mut built: Seq<(Seq<char>, Seq<char>)> = Seq::empty();
    let mut next = ("newClientOrderId"@, client_order_id);
    lemma_ascend_push(built, next);
    built = built.push(next);
    if command.post_only {
        next = ("postOnly"@, "true"@);
        lemma_ascend_push(built, next);
        built = built.push(next);
    }
    if let Some(p) = command.price {
        next = ("price"@, decimal_text(p));
        lemma_ascend_push(built, next);
        built = built.push(next);
    }
    next = ("quantity"@, decimal_text(command.quantity));
    lemma_ascend_push(built, next);
    built = built.push(next);
    if command.reduce_only {
        next = ("reduceOnly"@, "true"@);
        lemma_ascend_push(built, next);
        built = built.push(next);
    }
    next = ("side"@, side_text(command.side));
    lemma_ascend_push(built, next);
    built = built.push(next);
    next = ("symbol"@, command.symbol@);
    lemma_ascend_push(built, next);
    built = built.push(next);
    next = ("timeInForce"@, time_in_force_text(command.time_in_force));
    lemma_ascend_push(built, next);
    built = built.push(next);
    next = ("timestamp"@, signed_digits(timestamp as int));
    lemma_ascend_push(built, next);
    built = built.push(next);
    next = ("type"@, order_type_text(command.order_type));
    lemma_ascend_push(built, next);
    built = built.push(next);
    assert(built =~= params_of(command, client_order_id, timestamp));
}

/// The signature of the parameters of an order for an exchange: that of
/// Binance, of OKX over the JSON object of the parameters as the body of
/// a `POST` to `/api/v5/trade/order`, or of Bybit; empty for any other
/// exchange.
pub open spec fn signature_of(
    exchange: Seq<char>,
    signer: Signer,
    params: Seq<(Seq<char>, Seq<char>)>,
    timestamp: i64,
) -> Seq<char> {
    if exchange == "binance"@ {
        hex_text(signer.code_of(query_of(params)))
    } else if exchange == "okex"@ {
        base64_text(
            signer.code_of(
                signed_digits(timestamp as int) + "POST"@ + "/api/v5/trade/order"@ + json_object_text(
                    params,
                ),
            ),
        )
    } else if exchange == "bybit"@ {
        hex_text(signer.code_of(query_of(params)))
    } else {
        Seq::empty()
    }
}

/// Makes the order requests of one exchange.
pub struct OrderBuilder {
    exchange: String,
}

impl OrderBuilder {
    /// The exchange that the builder makes requests for.
    pub closed spec fn exchange_spec(self) -> Seq<char> {
        self.exchange@
    }

    pub fn new(exchange: String) -> (r: OrderBuilder)
        ensures
            r.exchange_spec() == exchange@,
    {
        OrderBuilder { exchange }
    }

    /// The signed request for a command, under the given client order id,
    /// at the time `now`.
    pub fn build_order_request(&self, command: &ExecutionCommand, client_order_id: String, signer: &Signer, now: i64) -> (r:
        OrderRequest)
        requires
            command.wf(),
        ensures
            r.symbol == command.symbol,
            r.side == command.side,
            r.order_type == command.order_type,
            r.quantity == command.quantity,
            r.price == command.price,
            r.time_in_force == command.time_in_force,
            r.client_order_id == client_order_id,
            r.timestamp == now,
            r.signature@ == signature_of(
                self.exchange_spec(),
                *signer,
                params_of(*command, client_order_id@, now),
                now,
            ),
    {
        let params = self.build_params(command, client_order_id.as_str(), now);
        let signature = if str_equal(self.exchange.as_str(), "binance") {
            signer.sign_binance(&params)
        } else if str_equal(self.exchange.as_str(), "okex") {
            let body = json_object(&params);
            signer.sign_okex(signed_text(now).as_str(), "POST", "/api/v5/trade/order", body.as_str())
        } else if str_equal(self.exchange.as_str(), "bybit") {
            signer.sign_bybit(&params)
        } else {
            String::new()
        };
        OrderRequest {
            symbol: command.symbol.clone(),
            side: command.side,
            order_type: command.order_type,
            quantity: command.quantity,
            price: command.price,
            time_in_force: command.time_in_force,
            client_order_id,
            timestamp: now,
            signature,
        }
    }

    /// The parameters of an order, in the order of their names.
    pub fn build_params(&self, command: &ExecutionCommand, client_order_id: &str, timestamp: i64) -> (r: Vec<
        (String, String),
    >)
        requires
            command.wf(),
        ensures
            pairs_view(r@) == params_of(*command, client_order_id@, timestamp),
            keys_ascend(pairs_view(r@)),
    {
        let mut params: Vec<(String, String)> = Vec::new();
        params.push((String::from_str("newClientOrderId"), String::from_str(client_order_id)));
        if command.post_only {
            params.push((String::from_str("postOnly"), String::from_str("true")));
        }
        match command.price {
            Some(p) => {
                params.push((String::from_str("price"), to_text(p)));
            },
            None => {},
        }
        params.push((String::from_str("quantity"), to_text(command.quantity)));
        if command.reduce_only {
            params.push((String::from_str("reduceOnly"), String::from_str("true")));
        }
        params.push((String::from_str("side"), self.format_side(command.side)));
        params.push((String::from_str("symbol"), command.symbol.clone()));
        params.push((String::from_str("timeInForce"), self.format_time_in_force(command.time_in_force)));
        params.push((String::from_str("timestamp"), signed_text(timestamp)));
        params.push((String::from_str("type"), self.format_order_type(command.order_type)));
        proof {
            assert(pairs_view(params@) =~= params_of(*command, client_order_id@, timestamp));
            lemma_params_ascend(*command, client_order_id@, timestamp);
        }
        params
    }

    /// The name of a side.
    pub fn format_side(&self, side: OrderSide) -> (r: String)
        ensures
            r@ == side_text(side),
    {
        match side {
            OrderSide::Buy => String::from_str("BUY"),
            OrderSide::Sell => String::from_str("SELL"),
        }
    }

    /// The name of an order type.
    pub fn format_order_type(&self, order_type: OrderType) -> (r: String)
        ensures
            r@ == order_type_text(order_type),
    {
        match order_type {
            OrderType::Market => String::from_str("MARKET"),
            OrderType::Limit => String::from_str("LIMIT"),
            OrderType::StopMarket => String::from_str("STOP_MARKET"),
            OrderType::StopLimit => String::from_str("STOP_LIMIT"),
        }
    }

    /// The name of a time in force.
    pub fn format_time_in_force(&self, tif: TimeInForce) -> (r: String)
        ensures
            r@ == time_in_force_text(tif),
    {
        match tif {
            TimeInForce::GTC => String::from_str("GTC"),
            TimeInForce::IOC => String::from_str("IOC"),
            TimeInForce::FOK => String::from_str("FOK"),
            TimeInForce::GTX => String::from_str("GTX"),
        }
    }
}

} // verus!
