//! What the exchanges answer to an order, and the responses that the
//! adapters make of the answers.
//!
//! A reply holds the members of the answer that an adapter reads, each as
//! far as the answer has it in the expected form.

use vstd::prelude::*;
use vstd::string::*;
use crate::common::decimal::{decimal_read, from_text, Decimal};
use crate::common::text::{signed_digits, signed_text};
use crate::engine::adapters::binance::{binance_order_status, BinanceAdapter};
use crate::engine::adapters::bybit::{bybit_order_status, BybitAdapter};
use crate::engine::adapters::okex::OkexAdapter;
use crate::engine::executor::types::{OrderResponse, OrderStatus};

verus! {

/// The answer of Binance.
#[derive(Debug)]
pub struct BinanceReply {
    /// The member `code`, as the answer writes it; only an error has one.
    pub code: Option<String>,
    /// The member `msg`, where it is a string.
    pub msg: Option<String>,
    /// The member `orderId`, where it is a whole number.
    pub order_id: Option<i64>,
    /// The member `clientOrderId`, where it is a string.
    pub client_order_id: Option<String>,
    /// The member `symbol`, where it is a string.
    pub symbol: Option<String>,
    /// The member `status`, where it is a string.
    pub status: Option<String>,
    /// The member `executedQty`, where it is a string.
    pub executed_qty: Option<String>,
    /// The member `price`, where it is a string.
    pub price: Option<String>,
    /// The member `transactTime`, where it is a whole number.
    pub transact_time: Option<i64>,
}

/// The first entry of the member `data` of an answer of OKX.
#[derive(Debug)]
pub struct OkexAck {
    /// The member `ordId`, where it is a string.
    pub ord_id: Option<String>,
    /// The member `clOrdId`, where it is a string.
    pub cl_ord_id: Option<String>,
}

/// The answer of OKX.
#[derive(Debug)]
pub struct OkexReply {
    /// The member `code`, where it is a string; `0` stands for success.
    pub code: Option<String>,
    /// The member `msg`, where it is a string.
    pub msg: Option<String>,
    /// The first entry of the member `data`, where there is one.
    pub first: Option<OkexAck>,
}

/// The member `result` of an answer of Bybit.
#[derive(Debug)]
pub struct BybitAck {
    /// The member `orderId`, where it is a string.
    pub order_id: Option<String>,
    /// The member `orderLinkId`, where it is a string.
    pub order_link_id: Option<String>,
    /// The member `symbol`, where it is a string.
    pub symbol: Option<String>,
    /// The member `orderStatus`, where it is a string.
    pub order_status: Option<String>,
}

/// The answer of Bybit.
#[derive(Debug)]
pub struct BybitReply {
    /// The member `retCode`, where it is a whole number; 0 stands for
    /// success.
    pub ret_code: Option<i64>,
    /// The member `retMsg`, where it is a string.
    pub ret_msg: Option<String>,
    /// The member `result`, where there is one.
    pub result: Option<BybitAck>,
}

/// Why an answer could not be read.
#[derive(Debug, Clone, Copy, PartialEq, Eq, Structural)]
pub enum ReplyError {
    /// The answer reports success and holds no order.
    InvalidFormat,
}

/// The characters of a string, or the fallback where there is no string.
pub open spec fn text_or(s: Option<String>, fallback: Seq<char>) -> Seq<char> {
    match s {
        Some(t) => t@,
        None => fallback,
    }
}

/// The response is a rejection at `now` with the given message, and
/// names no order.
pub open spec fn is_rejection(r: OrderResponse, message: Seq<char>, now: i64) -> bool {
    &&& r.order_id@.len() == 0
    &&& r.client_order_id@.len() == 0
    &&& r.symbol@.len() == 0
    &&& r.status == OrderStatus::Rejected
    &&& r.executed_qty == Decimal::zero_spec()
    &&& r.executed_price is None
    &&& r.timestamp == now
    &&& r.error matches Some(e) && e@ == message
}

/// The response is that of an order that was taken at `now` and of which
/// nothing is executed.
pub open spec fn is_acknowledgement(
    r: OrderResponse,
    order_id: Seq<char>,
    client_order_id: Seq<char>,
    symbol: Seq<char>,
    status: OrderStatus,
    now: i64,
) -> bool {
    &&& r.order_id@ == order_id
    &&& r.client_order_id@ == client_order_id
    &&& r.symbol@ == symbol
    &&& r.status == status
    &&& r.executed_qty == Decimal::zero_spec()
    &&& r.executed_price is None
    &&& r.timestamp == now
    &&& r.error is None
}

/// The decimal that a member writes; none where the member is missing or
/// writes no decimal.
pub open spec fn decimal_of(member: Option<String>) -> Option<Decimal> {
    match member {
        Some(text) => decimal_read(text@),
        None => None,
    }
}

/// The response that an answer of Binance stands for. An answer with a
/// code is a rejection, with the code and the message, or `Unknown
/// error`. Else the members are taken over; a missing status counts as
/// new, a missing quantity as zero, a missing time as `now`.
pub open spec fn is_binance_reading(r: OrderResponse, reply: BinanceReply, now: i64) -> bool {
    match reply.code {
        Some(code) => is_rejection(
            r,
            "Error "@ + code@ + ": "@ + text_or(reply.msg, "Unknown error"@),
            now,
        ),
        None => {
            &&& r.order_id@ == (match reply.order_id {
                Some(id) => signed_digits(id as int),
                None => Seq::empty(),
            })
            &&& r.client_order_id@ == text_or(reply.client_order_id, Seq::empty())
            &&& r.symbol@ == text_or(reply.symbol, Seq::empty())
            &&& r.status == (match reply.status {
                Some(s) => binance_order_status(s@),
                None => OrderStatus::New,
            })
            &&& r.executed_qty == (match decimal_of(reply.executed_qty) {
                Some(q) => q,
                None => Decimal::zero_spec(),
            })
            &&& r.executed_price == decimal_of(reply.price)
            &&& r.timestamp == (match reply.transact_time {
                Some(t) => t,
                None => now,
            })
            &&& r.error is None
        },
    }
}

/// Whether the answer of OKX reports success.
pub open spec fn okex_succeeded(reply: OkexReply) -> bool {
    reply.code matches Some(code) && code@ == "0"@
}

/// Whether the answer of Bybit reports success.
pub open spec fn bybit_succeeded(reply: BybitReply) -> bool {
    reply.ret_code == Some(0i64)
}

/// A copy of the string, or an empty string where there is none.
fn text_of(s: &Option<String>) -> (r: String)
    ensures
        r@ == text_or(*s, Seq::empty()),
{
    match s {
        Some(t) => t.clone(),
        None => String::new(),
    }
}

/// The decimal that a member writes.
fn read_decimal(member: &Option<String>) -> (r: Option<Decimal>)
    ensures
        r == decimal_of(*member),
        r matches Some(d) ==> d.wf(),
{
    match member {
        Some(text) => from_text(text.as_str()),
        None => None,
    }
}

/// A rejection at `now` with the message of the answer, or `Unknown
/// error`, behind the given words.
fn rejection(lead: String, message: &Option<String>, now: i64) -> (r: OrderResponse)
    ensures
        is_rejection(r, lead@ + text_or(*message, "Unknown error"@), now),
{
    let error = match message {
        Some(m) => lead.concat(m.as_str()),
        None => lead.concat("Unknown error"),
    };
    OrderResponse {
        order_id: String::new(),
        client_order_id: String::new(),
        symbol: String::new(),
        status: OrderStatus::Rejected,
        executed_qty: Decimal::zero(),
        executed_price: None,
        timestamp: now,
        error: Some(error),
    }
}

impl BinanceAdapter {
    /// The response that an answer of Binance stands for.
    pub fn parse_order_response(&self, reply: &BinanceReply, now: i64) -> (r: OrderResponse)
        ensures
            is_binance_reading(r, *reply, now),
    {
        match &reply.code {
            Some(code) => {
                let lead = String::from_str("Error ").concat(code.as_str()).concat(": ");
                proof {
                    assert(lead@ + text_or(reply.msg, "Unknown error"@) =~= "Error "@ + code@ + ": "@ + text_or(
                        reply.msg,
                        "Unknown error"@,
                    ));
                }
                rejection(lead, &reply.msg, now)
            },
            None => OrderResponse {
                order_id: match reply.order_id {
                    Some(id) => signed_text(id),
                    None => String::new(),
                },
                client_order_id: text_of(&reply.client_order_id),
                symbol: text_of(&reply.symbol),
                status: match &reply.status {
                    Some(s) => self.parse_order_status(s.as_str()),
                    None => OrderStatus::New,
                },
                executed_qty: match read_decimal(&reply.executed_qty) {
                    Some(q) => q,
                    None => Decimal::zero(),
                },
                executed_price: read_decimal(&reply.price),
                timestamp: match reply.transact_time {
                    Some(t) => t,
                    None => now,
                },
                error: None,
            },
        }
    }
}

impl OkexAdapter {
    /// The response that an answer of OKX stands for. An answer whose
    /// code is not `0` is a rejection with its message, or `Unknown
    /// error`. Else its first entry is an order that was taken; without
    /// such an entry the answer cannot be read.
    pub fn parse_order_response(&self, reply: &OkexReply, now: i64) -> (r: Result<OrderResponse, ReplyError>)
        ensures
            match r {
                Ok(response) => if okex_succeeded(*reply) {
                    reply.first matches Some(ack) && is_acknowledgement(
                        response,
                        text_or(ack.ord_id, Seq::empty()),
                        text_or(ack.cl_ord_id, Seq::empty()),
                        Seq::empty(),
                        OrderStatus::New,
                        now,
                    )
                } else {
                    is_rejection(response, text_or(reply.msg, "Unknown error"@), now)
                },
                Err(e) => okex_succeeded(*reply) && reply.first is None && e == ReplyError::InvalidFormat,
            },
    {
        let succeeded = match &reply.code {
            Some(code) => crate::common::text::str_equal(code.as_str(), "0"),
            None => false,
        };
        if !succeeded {
            let lead = String::new();
            proof {
                assert(lead@ + text_or(reply.msg, "Unknown error"@) =~= text_or(reply.msg, "Unknown error"@));
            }
            return Ok(rejection(lead, &reply.msg, now));
        }
        match &reply.first {
            Some(ack) => Ok(
                OrderResponse {
                    order_id: text_of(&ack.ord_id),
                    client_order_id: text_of(&ack.cl_ord_id),
                    symbol: String::new(),
                    status: OrderStatus::New,
                    executed_qty: Decimal::zero(),
                    executed_price: None,
                    timestamp: now,
                    error: None,
                },
            ),
            None => Err(ReplyError::InvalidFormat),
        }
    }
}

impl BybitAdapter {
    /// The response that an answer of Bybit stands for. An answer whose
    /// return code is not 0 is a rejection with its message, or `Unknown
    /// error`. Else its result is an order that was taken, in the state
    /// that it names, or new; without a result the answer cannot be read.
    pub fn parse_order_response(&self, reply: &BybitReply, now: i64) -> (r: Result<OrderResponse, ReplyError>)
        ensures
            match r {
                Ok(response) => if bybit_succeeded(*reply) {
                    reply.result matches Some(ack) && is_acknowledgement(
                        response,
                        text_or(ack.order_id, Seq::empty()),
                        text_or(ack.order_link_id, Seq::empty()),
                        text_or(ack.symbol, Seq::empty()),
                        match ack.order_status {
                            Some(s) => bybit_order_status(s@),
                            None => OrderStatus::New,
                        },
                        now,
                    )
                } else {
                    is_rejection(response, text_or(reply.ret_msg, "Unknown error"@), now)
                },
                Err(e) => bybit_succeeded(*reply) && reply.result is None && e == ReplyError::InvalidFormat,
            },
    {
        let succeeded = match reply.ret_code {
            Some(code) => code == 0,
            None => false,
        };
        if !succeeded {
            let lead = String::new();
            proof {
                assert(lead@ + text_or(reply.ret_msg, "Unknown error"@) =~= text_or(
                    reply.ret_msg,
                    "Unknown error"@,
                ));
            }
            return Ok(rejection(lead, &reply.ret_msg, now));
        }
        match &reply.result {
            Some(ack) => Ok(
                OrderResponse {
                    order_id: text_of(&ack.order_id),
                    client_order_id: text_of(&ack.order_link_id),
                    symbol: text_of(&ack.symbol),
                    status: match &ack.order_status {
                        Some(s) => self.parse_order_status(s.as_str()),
                        None => OrderStatus::New,
                    },
                    executed_qty: Decimal::zero(),
                    executed_price: None,
                    timestamp: now,
                    error: None,
                },
            ),
            None => Err(ReplyError::InvalidFormat),
        }
    }
}

} // verus!
