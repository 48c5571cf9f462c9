//! What to make of the responses of the exchange.

use vstd::prelude::*;
use vstd::string::*;
use crate::common::decimal::Decimal;
use crate::common::text::{signed_digits, signed_text, str_equal};
use crate::engine::executor::types::{OrderResponse, OrderStatus};

verus! {

/// How much a response with the given status is worth: a fill most, then
/// a partial fill, a new order, a cancellation, an expiry, a rejection.
pub open spec fn rank(status: OrderStatus) -> int {
    match status {
        OrderStatus::Filled => 6,
        OrderStatus::PartiallyFilled => 5,
        OrderStatus::New => 4,
        OrderStatus::Canceled => 3,
        OrderStatus::Expired => 2,
        OrderStatus::Rejected => 1,
    }
}

/// The status means that the order stands: it is new, or filled in part
/// or in full.
pub open spec fn accepted(status: OrderStatus) -> bool {
    status == OrderStatus::New || status == OrderStatus::PartiallyFilled || status
        == OrderStatus::Filled
}

/// The place of the best of the first `upto` responses: of those without
/// an error, the one that is worth most, and of several of equal worth
/// the last. None where every response has an error.
pub open spec fn best_upto(responses: Seq<OrderResponse>, upto: int) -> Option<int>
    decreases upto,
{
    if upto <= 0 {
        None
    } else if responses[upto - 1].error is Some {
        best_upto(responses, upto - 1)
    } else {
        match best_upto(responses, upto - 1) {
            Some(j) if rank(responses[j].status) > rank(responses[upto - 1].status) => Some(j),
            _ => Some(upto - 1),
        }
    }
}

/// The place of the best response is one of a response without an error
/// that no other such response is worth more than.
pub proof fn lemma_best_is_best(responses: Seq<OrderResponse>, upto: int)
    requires
        0 <= upto <= responses.len(),
    ensures
        match best_upto(responses, upto) {
            Some(j) => 0 <= j < upto && responses[j].error is None && forall|i: int|
                0 <= i < upto && (#[trigger] responses[i]).error is None ==> rank(responses[i].status)
                    <= rank(responses[j].status),
            None => forall|i: int| 0 <= i < upto ==> (#[trigger] responses[i]).error is Some,
        },
    decreases upto,
{
    if upto > 0 {
        lemma_best_is_best(responses, upto - 1);
    }
}

/// The fields of a reply of an exchange, as far as it has them.
#[derive(Debug)]
pub struct ReplyFields {
    /// The reply reports an error.
    pub is_error: bool,
    pub error_message: Option<String>,
    pub order_id: Option<i64>,
    pub client_order_id: Option<String>,
    pub symbol: Option<String>,
    pub status: Option<String>,
    pub executed_qty: Option<Decimal>,
    pub price: Option<Decimal>,
    pub transact_time: Option<i64>,
}

/// Why a reply could not be read.
#[derive(Debug, Clone, Copy, PartialEq, Eq, Structural)]
pub enum ResponseError {
    /// The replies of the exchange are not known to the handler.
    UnsupportedExchange,
}

/// The status that Binance names.
pub open spec fn binance_status(name: Seq<char>) -> OrderStatus {
    if name == "PARTIALLY_FILLED"@ {
        OrderStatus::PartiallyFilled
    } else if name == "FILLED"@ {
        OrderStatus::Filled
    } else if name == "CANCELED"@ {
        OrderStatus::Canceled
    } else if name == "REJECTED"@ {
        OrderStatus::Rejected
    } else if name == "EXPIRED"@ {
        OrderStatus::Expired
    } else {
        OrderStatus::New
    }
}

/// The characters of a string, or none where there is no string.
pub open spec fn text_or_empty(s: Option<String>) -> Seq<char> {
    match s {
        Some(t) => t@,
        None => Seq::empty(),
    }
}

/// The response that the fields of a reply of Binance stand for. A reply
/// that reports an error is a rejection with the message of the error, or
/// `Unknown error`. Else the fields are taken over; a missing status
/// counts as new, a missing quantity as zero, a missing time as `now`.
pub open spec fn is_binance_response(r: OrderResponse, fields: ReplyFields, now: i64) -> bool {
    if fields.is_error {
        &&& r.order_id@.len() == 0
        &&& r.client_order_id@.len() == 0
        &&& r.symbol@.len() == 0
        &&& r.status == OrderStatus::Rejected
        &&& r.executed_qty == Decimal::zero_spec()
        &&& r.executed_price is None
        &&& r.timestamp == now
        &&& r.error matches Some(e) && e@ == (match fields.error_message {
            Some(m) => m@,
            None => "Unknown error"@,
        })
    } else {
        &&& r.order_id@ == (match fields.order_id {
            Some(id) => signed_digits(id as int),
            None => Seq::empty(),
        })
        &&& r.client_order_id@ == text_or_empty(fields.client_order_id)
        &&& r.symbol@ == text_or_empty(fields.symbol)
        &&& r.status == (match fields.status {
            Some(s) => binance_status(s@),
            None => OrderStatus::New,
        })
        &&& r.executed_qty == (match fields.executed_qty {
            Some(q) => q,
            None => Decimal::zero_spec(),
        })
        &&& r.executed_price == fields.price
        &&& r.timestamp == (match fields.transact_time {
            Some(t) => t,
            None => now,
        })
        &&& r.error is None
    }
}

/// Reads the replies of one exchange.
pub struct ResponseHandler {
    exchange: String,
}

impl ResponseHandler {
    /// The exchange whose replies the handler reads.
    pub closed spec fn exchange_spec(self) -> Seq<char> {
        self.exchange@
    }

    pub fn new(exchange: String) -> (r: ResponseHandler)
        ensures
            r.exchange_spec() == exchange@,
    {
        ResponseHandler { exchange }
    }

    /// The response that the fields of a reply stand for. Only the
    /// replies of Binance are known.
    pub fn parse_response(&self, fields: &ReplyFields, now: i64) -> (r: Result<OrderResponse, ResponseError>)
        ensures
            match r {
                Ok(response) => self.exchange_spec() == "binance"@ && is_binance_response(
                    response,
                    *fields,
                    now,
                ),
                Err(e) => self.exchange_spec() != "binance"@ && e == ResponseError::UnsupportedExchange,
            },
    {
        if str_equal(self.exchange.as_str(), "binance") {
            Ok(self.parse_binance_response(fields, now))
        } else {
            Err(ResponseError::UnsupportedExchange)
        }
    }

    /// The response that the fields of a reply of Binance stand for.
    fn parse_binance_response(&self, fields: &ReplyFields, now: i64) -> (r: OrderResponse)
        ensures
            is_binance_response(r, *fields, now),
    {
        if fields.is_error {
            let message = match &fields.error_message {
                Some(m) => m.clone(),
                None => String::from_str("Unknown error"),
            };
            return OrderResponse {
                order_id: String::new(),
                client_order_id: String::new(),
                symbol: String::new(),
                status: OrderStatus::Rejected,
                executed_qty: Decimal::zero(),
                executed_price: None,
                timestamp: now,
                error: Some(message),
            };
        }
        OrderResponse {
            order_id: match fields.order_id {
                Some(id) => signed_text(id),
                None => String::new(),
            },
            client_order_id: match &fields.client_order_id {
                Some(s) => s.clone(),
                None => String::new(),
            },
            symbol: match &fields.symbol {
                Some(s) => s.clone(),
                None => String::new(),
            },
            status: match &fields.status {
                Some(s) => self.parse_binance_status(s.as_str()),
                None => OrderStatus::New,
            },
            executed_qty: match fields.executed_qty {
                Some(q) => q,
                None => Decimal::zero(),
            },
            executed_price: fields.price,
            timestamp: match fields.transact_time {
                Some(t) => t,
                None => now,
            },
            error: None,
        }
    }

    /// The status that Binance names; new for a name that is not known.
    pub fn parse_binance_status(&self, status: &str) -> (r: OrderStatus)
        ensures
            r == binance_status(status@),
    {
        if str_equal(status, "PARTIALLY_FILLED") {
            OrderStatus::PartiallyFilled
        } else if str_equal(status, "FILLED") {
            OrderStatus::Filled
        } else if str_equal(status, "CANCELED") {
            OrderStatus::Canceled
        } else if str_equal(status, "REJECTED") {
            OrderStatus::Rejected
        } else if str_equal(status, "EXPIRED") {
            OrderStatus::Expired
        } else {
            OrderStatus::New
        }
    }

    /// The best of the responses: of those without an error, the one
    /// whose status is worth most, and of several of equal worth the
    /// last.
    pub fn select_best_response(&self, responses: &Vec<OrderResponse>) -> (r: Option<OrderResponse>)
        ensures
            r == (match best_upto(responses@, responses@.len() as int) {
                Some(j) => Some(responses@[j]),
                None => None,
            }),
    {
        let mut best: Option<usize> = None;
        let mut i: usize = 0;
        while i < responses.len()
            invariant
                i <= responses@.len(),
                match best {
                    Some(j) => best_upto(responses@, i as int) == Some(j as int) && j < i,
                    None => best_upto(responses@, i as int) is None,
                },
            decreases responses@.len() - i,
        {
            if responses[i].error.is_none() {
                best = match best {
                    Some(j) if status_rank(responses[j].status) > status_rank(responses[i].status) => Some(j),
                    _ => Some(i),
                };
            }
            i += 1;
        }
        match best {
            Some(j) => Some(responses[j].clone()),
            None => None,
        }
    }
}

/// How much a response with the given status is worth.
pub fn status_rank(status: OrderStatus) -> (r: u8)
    ensures
        r == rank(status),
{
    match status {
        OrderStatus::Filled => 6,
        OrderStatus::PartiallyFilled => 5,
        OrderStatus::New => 4,
        OrderStatus::Canceled => 3,
        OrderStatus::Expired => 2,
        OrderStatus::Rejected => 1,
    }
}

} // verus!
