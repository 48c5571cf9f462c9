//! The order, its fills, and the book that indexes orders by client id,
//! by exchange id and by symbol.

use vstd::prelude::*;
use vstd::string::*;
use crate::common::decimal::{
    checked_add, checked_div, checked_mul, checked_sub, decimal_difference, decimal_product,
    decimal_quotient, decimal_sum, outside_lt, to_text, Decimal, decimal_text,
};
use crate::common::idlist::{contains_id, listed, remove_id, without};
use crate::common::table::Table;
use crate::common::text::str_equal;
use crate::common::types::{OrderType, Side, Signal, SignalType, TimeInForce};
use crate::processor::order::order_state::OrderState;

verus! {

/// Where an order came from and where it goes.
#[derive(Debug)]
pub struct OrderMetadata {
    pub strategy: String,
    pub exchange: String,
    pub account: String,
    pub tags: Vec<String>,
    pub notes: Option<String>,
}

/// The central entity of the processor.
#[derive(Debug)]
pub struct Order {
    /// The id under which the order is known everywhere; derived from the
    /// signal, so that the same signal gives the same id.
    pub client_order_id: String,
    /// The id that the exchange gave, once it took the order.
    pub exchange_order_id: Option<String>,
    pub signal_id: String,
    pub symbol: String,
    pub side: Side,
    pub order_type: OrderType,
    pub time_in_force: TimeInForce,
    pub price: Decimal,
    pub quantity: Decimal,
    pub executed_quantity: Decimal,
    /// The average price of what was executed, weighted by quantity.
    pub executed_price: Decimal,
    pub remaining_quantity: Decimal,
    pub state: OrderState,
    pub created_at: i64,
    pub updated_at: i64,
    pub submitted_at: Option<i64>,
    pub filled_at: Option<i64>,
    /// 0 to 10; 10 goes first.
    pub priority: u8,
    pub max_retry: u8,
    pub retry_count: u8,
    pub arbitrage_id: Option<String>,
    pub hedge_order_id: Option<String>,
    pub is_hedge: bool,
    pub metadata: OrderMetadata,
}

/// Why an execution could not be booked.
#[derive(Debug, Clone, Copy, PartialEq, Eq, Structural)]
pub enum OrderError {
    /// More would be executed than was ordered.
    Overfill,
    /// A sum, product or quotient does not fit a decimal, or the books
    /// would no longer balance.
    Arithmetic,
}

/// The value stored under `key` in a list of pairs: that of the first
/// pair, from position `from` on, whose key it is.
pub open spec fn meta_value(pairs: Seq<(String, String)>, key: Seq<char>, from: int) -> Option<String>
    decreases pairs.len() - from,
{
    if from < 0 || from >= pairs.len() {
        None
    } else if pairs[from].0@ == key {
        Some(pairs[from].1)
    } else {
        meta_value(pairs, key, from + 1)
    }
}

/// The value stored under `key` in a list of pairs.
pub fn find_meta(pairs: &Vec<(String, String)>, key: &str) -> (r: Option<String>)
    ensures
        r == meta_value(pairs@, key@, 0),
{
    let mut i: usize = 0;
    while i < pairs.len()
        invariant
            i <= pairs@.len(),
            meta_value(pairs@, key@, 0) == meta_value(pairs@, key@, i as int),
        decreases pairs@.len() - i,
    {
        if str_equal(pairs[i].0.as_str(), key) {
            return Some(pairs[i].1.clone());
        }
        i += 1;
    }
    None
}

/// The average price after a further execution: the old average and the
/// new price, each weighted by its quantity.
pub open spec fn blended_price(
    old_price: Decimal,
    old_quantity: Decimal,
    price: Decimal,
    quantity: Decimal,
    total: Decimal,
) -> Option<Decimal> {
    match (decimal_product(old_price, old_quantity), decimal_product(price, quantity)) {
        (Some(a), Some(b)) => match decimal_sum(a, b) {
            Some(value) => decimal_quotient(value, total),
            None => None,
        },
        _ => None,
    }
}

/// The books of an order balance: what was executed and what remains add
/// up to what was ordered.
pub open spec fn balanced(executed: Decimal, remaining: Decimal, quantity: Decimal) -> bool {
    decimal_sum(executed, remaining) matches Some(s) && s.same_value(quantity)
}

/// The figures of an order after a further execution.
#[derive(Debug, Clone, Copy, PartialEq, Eq, Structural)]
pub struct Booking {
    pub executed_quantity: Decimal,
    pub executed_price: Decimal,
    pub remaining_quantity: Decimal,
}

/// What a further execution of `quantity` at `price` does to the figures
/// of an order, or why it cannot be booked.
pub open spec fn booking(o: Order, quantity: Decimal, price: Decimal) -> Result<Booking, OrderError> {
    match decimal_sum(o.executed_quantity, quantity) {
        None => Err(OrderError::Arithmetic),
        Some(total) => if o.quantity.lt_spec(total) {
            Err(OrderError::Overfill)
        } else {
            let average = if total.mantissa > 0 {
                blended_price(o.executed_price, o.executed_quantity, price, quantity, total)
            } else {
                Some(o.executed_price)
            };
            match (average, decimal_difference(o.quantity, total)) {
                (Some(executed_price), Some(remaining)) => if balanced(total, remaining, o.quantity) {
                    Ok(
                        Booking {
                            executed_quantity: total,
                            executed_price,
                            remaining_quantity: remaining,
                        },
                    )
                } else {
                    Err(OrderError::Arithmetic)
                },
                _ => Err(OrderError::Arithmetic),
            }
        },
    }
}

/// The state of an order after a booking.
pub open spec fn state_after(before: OrderState, b: Booking) -> OrderState {
    if b.remaining_quantity.mantissa <= 0 {
        OrderState::Filled
    } else if b.executed_quantity.mantissa > 0 {
        OrderState::PartiallyFilled
    } else {
        before
    }
}

impl Order {
    /// The figures are within the limits of their representation, the
    /// books balance, and the order has a fill time exactly when it is
    /// filled.
    pub open spec fn wf(self) -> bool {
        &&& self.price.wf()
        &&& self.quantity.wf()
        &&& self.executed_quantity.wf()
        &&& self.executed_price.wf()
        &&& self.remaining_quantity.wf()
        &&& balanced(self.executed_quantity, self.remaining_quantity, self.quantity)
        &&& (self.filled_at is Some <==> self.state == OrderState::Filled)
    }

    /// The order is the one that the signal asks for, untouched: a market
    /// order, immediate or cancel, at priority 5 with three retries,
    /// nothing executed yet, under the client id `ORD_` followed by the id
    /// of the signal.
    pub open spec fn is_fresh_from(self, signal: Signal, now: i64) -> bool {
        &&& self.client_order_id@ == "ORD_"@ + signal.id@
        &&& self.exchange_order_id is None
        &&& self.signal_id == signal.id
        &&& self.symbol == signal.symbol
        &&& self.side == (match signal.side {
            Some(s) => s,
            None => Side::Buy,
        })
        &&& self.order_type == OrderType::Market
        &&& self.time_in_force == TimeInForce::IOC
        &&& self.price == (match signal.price {
            Some(p) => p,
            None => Decimal::zero_spec(),
        })
        &&& self.quantity == (match signal.quantity {
            Some(q) => q,
            None => Decimal::zero_spec(),
        })
        &&& self.executed_quantity == Decimal::zero_spec()
        &&& self.executed_price == Decimal::zero_spec()
        &&& self.remaining_quantity == self.quantity
        &&& self.state == OrderState::Created
        &&& self.created_at == now
        &&& self.updated_at == now
        &&& self.submitted_at is None
        &&& self.filled_at is None
        &&& self.priority == 5
        &&& self.max_retry == 3
        &&& self.retry_count == 0
        &&& self.arbitrage_id == meta_value(signal.metadata@, "arbitrage_id"@, 0)
        &&& self.hedge_order_id is None
        &&& self.is_hedge == (signal.signal_type == SignalType::Hedge)
        &&& self.metadata.strategy == signal.source
        &&& self.metadata.exchange == signal.exchange
        &&& self.metadata.account@ == (match meta_value(signal.metadata@, "account"@, 0) {
            Some(a) => a@,
            None => "default"@,
        })
        &&& self.metadata.tags@.len() == 0
        &&& self.metadata.notes is None
    }

    /// The order that a signal asks for.
    pub fn from_signal(signal: &Signal, now: i64) -> (r: Order)
        requires
            signal.wf(),
        ensures
            r.wf(),
            r.is_fresh_from(*signal, now),
    {
        let quantity = match signal.quantity {
            Some(q) => q,
            None => Decimal::zero(),
        };
        let price = match signal.price {
            Some(p) => p,
            None => Decimal::zero(),
        };
        let side = match signal.side {
            Some(s) => s,
            None => Side::Buy,
        };
        let account = match find_meta(&signal.metadata, "account") {
            Some(a) => a,
            None => "default".to_string(),
        };
        // Nothing is executed yet, so the books balance: zero and the
        // quantity add up to the quantity.
        let _ = checked_add(Decimal::zero(), quantity);
        proof {
            crate::common::decimal::lemma_same_value_reflexive(quantity);
        }
        Order {
            client_order_id: String::from_str("ORD_").concat(signal.id.as_str()),
            exchange_order_id: None,
            signal_id: signal.id.clone(),
            symbol: signal.symbol.clone(),
            side,
            order_type: OrderType::Market,
            time_in_force: TimeInForce::IOC,
            price,
            quantity,
            executed_quantity: Decimal::zero(),
            executed_price: Decimal::zero(),
            remaining_quantity: quantity,
            state: OrderState::Created,
            created_at: now,
            updated_at: now,
            submitted_at: None,
            filled_at: None,
            priority: 5,
            max_retry: 3,
            retry_count: 0,
            arbitrage_id: find_meta(&signal.metadata, "arbitrage_id"),
            hedge_order_id: None,
            is_hedge: signal.signal_type == SignalType::Hedge,
            metadata: OrderMetadata {
                strategy: signal.source.clone(),
                exchange: signal.exchange.clone(),
                account,
                tags: Vec::new(),
                notes: None,
            },
        }
    }

    pub open spec fn can_retry_spec(self) -> bool {
        self.retry_count < self.max_retry && (self.state == OrderState::Rejected || self.state
            == OrderState::Failed)
    }

    pub open spec fn is_completed_spec(self) -> bool {
        self.state == OrderState::Filled || self.state == OrderState::Cancelled || self.state
            == OrderState::Expired
    }

    /// The order failed or was rejected, and has retries left.
    pub fn can_retry(&self) -> (r: bool)
        ensures
            r == self.can_retry_spec(),
    {
        self.retry_count < self.max_retry && matches!(
            self.state,
            OrderState::Rejected | OrderState::Failed
        )
    }

    /// Counts one more retry.
    pub fn increment_retry(&mut self, now: i64)
        requires
            old(self).retry_count < u8::MAX,
        ensures
            *final(self) == (Order {
                retry_count: (old(self).retry_count + 1) as u8,
                updated_at: now,
                ..*old(self)
            }),
    {
        self.retry_count = self.retry_count + 1;
        self.updated_at = now;
    }

    /// The order is filled, cancelled or expired.
    pub fn is_completed(&self) -> (r: bool)
        ensures
            r == self.is_completed_spec(),
    {
        matches!(self.state, OrderState::Filled | OrderState::Cancelled | OrderState::Expired)
    }

    /// The order is with the exchange.
    pub fn is_active(&self) -> (r: bool)
        ensures
            r == self.state.is_active_spec(),
    {
        self.state.is_active()
    }

    /// The order after a booking at `now`: the new figures, and the state
    /// that they ask for. The order is filled once nothing remains, and
    /// has its fill time from then.
    pub open spec fn after_booking(self, b: Booking, now: i64) -> Order {
        let state = state_after(self.state, b);
        Order {
            executed_quantity: b.executed_quantity,
            executed_price: b.executed_price,
            remaining_quantity: b.remaining_quantity,
            updated_at: now,
            state,
            filled_at: if b.remaining_quantity.mantissa <= 0 {
                Some(now)
            } else if state == OrderState::Filled {
                self.filled_at
            } else {
                None
            },
            ..self
        }
    }

    /// What a further execution of `quantity` at `price` would do to the
    /// figures of the order: the executed quantity grows, the executed
    /// price becomes the weighted average, and what remains is the ordered
    /// quantity less the executed one. An execution that would exceed the
    /// order, or that cannot be computed, has no booking.
    pub fn preview_execution(&self, quantity: Decimal, price: Decimal) -> (r: Result<Booking, OrderError>)
        requires
            self.wf(),
            quantity.wf(),
            price.wf(),
        ensures
            r == booking(*self, quantity, price),
            r matches Ok(b) ==> b.executed_quantity.wf() && b.executed_price.wf()
                && b.remaining_quantity.wf() && balanced(
                b.executed_quantity,
                b.remaining_quantity,
                self.quantity,
            ),
    {
        let total = match checked_add(self.executed_quantity, quantity) {
            Some(t) => t,
            None => {
                return Err(OrderError::Arithmetic);
            },
        };
        if outside_lt(self.quantity, total) {
            return Err(OrderError::Overfill);
        }
        let average = if total.is_positive() {
            let old_value = checked_mul(self.executed_price, self.executed_quantity);
            let new_value = checked_mul(price, quantity);
            match (old_value, new_value) {
                (Some(a), Some(b)) => match checked_add(a, b) {
                    Some(value) => checked_div(value, total),
                    None => None,
                },
                _ => None,
            }
        } else {
            Some(self.executed_price)
        };
        let remaining = checked_sub(self.quantity, total);
        let (executed_price, remaining) = match (average, remaining) {
            (Some(a), Some(r)) => (a, r),
            _ => {
                return Err(OrderError::Arithmetic);
            },
        };
        let balances = match checked_add(total, remaining) {
            Some(s) => crate::common::decimal::outside_eq(s, self.quantity),
            None => false,
        };
        if !balances {
            return Err(OrderError::Arithmetic);
        }
        Ok(Booking { executed_quantity: total, executed_price, remaining_quantity: remaining })
    }

    /// Takes the figures of a booking into the order.
    pub fn apply_booking(&mut self, b: Booking, now: i64)
        requires
            old(self).wf(),
            b.executed_quantity.wf(),
            b.executed_price.wf(),
            b.remaining_quantity.wf(),
            balanced(b.executed_quantity, b.remaining_quantity, old(self).quantity),
        ensures
            final(self).wf(),
            *final(self) == old(self).after_booking(b, now),
    {
        self.executed_quantity = b.executed_quantity;
        self.executed_price = b.executed_price;
        self.remaining_quantity = b.remaining_quantity;
        self.updated_at = now;
        if !b.remaining_quantity.is_positive() {
            self.state = OrderState::Filled;
            self.filled_at = Some(now);
        } else if b.executed_quantity.is_positive() {
            self.state = OrderState::PartiallyFilled;
            self.filled_at = None;
        }
    }

    /// Books a further execution of `quantity` at `price`, as
    /// [`Order::preview_execution`] tells it. An execution that has no
    /// booking is refused and leaves the order as it was.
    pub fn update_execution(&mut self, quantity: Decimal, price: Decimal, now: i64) -> (r: Result<
        (),
        OrderError,
    >)
        requires
            old(self).wf(),
            quantity.wf(),
            price.wf(),
        ensures
            final(self).wf(),
            match booking(*old(self), quantity, price) {
                Err(e) => r == Err::<(), OrderError>(e) && *final(self) == *old(self),
                Ok(b) => r == Ok::<(), OrderError>(()) && *final(self) == old(self).after_booking(
                    b,
                    now,
                ),
            },
    {
        let b = self.preview_execution(quantity, price)?;
        self.apply_booking(b, now);
        Ok(())
    }

    /// Marks the order as filled at `now`, whatever remains.
    pub fn mark_filled(&mut self, now: i64)
        requires
            old(self).wf(),
        ensures
            final(self).wf(),
            *final(self) == (Order {
                state: OrderState::Filled,
                filled_at: Some(now),
                updated_at: now,
                ..*old(self)
            }),
    {
        self.state = OrderState::Filled;
        self.filled_at = Some(now);
        self.updated_at = now;
    }

    /// The order in another state than `Filled`, touched at `now`.
    pub open spec fn with_state(self, state: OrderState, now: i64) -> Order {
        Order { state, filled_at: None, updated_at: now, ..self }
    }

    /// Moves the order to a state other than `Filled`.
    pub fn set_state(&mut self, state: OrderState, now: i64)
        requires
            old(self).wf(),
            state != OrderState::Filled,
        ensures
            final(self).wf(),
            *final(self) == old(self).with_state(state, now),
    {
        self.state = state;
        self.filled_at = None;
        self.updated_at = now;
    }

    /// Records the id that the exchange gave, and the time of submission.
    pub fn set_exchange_order_id(&mut self, exchange_id: String, now: i64)
        ensures
            *final(self) == (Order {
                exchange_order_id: Some(exchange_id),
                submitted_at: Some(now),
                updated_at: now,
                ..*old(self)
            }),
    {
        self.exchange_order_id = Some(exchange_id);
        self.submitted_at = Some(now);
        self.updated_at = now;
    }

    /// Price times quantity; none where the product does not fit.
    pub fn calculate_value(&self) -> (r: Option<Decimal>)
        requires
            self.wf(),
        ensures
            r == decimal_product(self.price, self.quantity),
            r matches Some(d) ==> d.wf(),
    {
        checked_mul(self.price, self.quantity)
    }

    /// Executed price times executed quantity; none where the product does
    /// not fit.
    pub fn calculate_executed_value(&self) -> (r: Option<Decimal>)
        requires
            self.wf(),
        ensures
            r == decimal_product(self.executed_price, self.executed_quantity),
            r matches Some(d) ==> d.wf(),
    {
        checked_mul(self.executed_price, self.executed_quantity)
    }

    /// One line about the order: id, side, quantity, symbol, price, state.
    pub fn summary(&self) -> (r: String)
        requires
            self.wf(),
        ensures
            r@ == "Order "@ + self.client_order_id@ + " "@ + side_name(self.side)@ + " "@
                + decimal_text(self.quantity) + " "@ + self.symbol@ + " @ "@ + decimal_text(
                self.price,
            ) + " (state: "@ + self.state.name_spec()@ + ")"@,
    {
        let mut s = String::from_str("Order ");
        s.append(self.client_order_id.as_str());
        s.append(" ");
        s.append(side_name(self.side));
        s.append(" ");
        s.append(to_text(self.quantity).as_str());
        s.append(" ");
        s.append(self.symbol.as_str());
        s.append(" @ ");
        s.append(to_text(self.price).as_str());
        s.append(" (state: ");
        s.append(self.state.name());
        s.append(")");
        s
    }
}

/// The name of a side.
#[verifier::when_used_as_spec(side_name_spec)]
pub fn side_name(side: Side) -> (r: &'static str)
    ensures
        r == side_name_spec(side),
{
    match side {
        Side::Buy => "Buy",
        Side::Sell => "Sell",
    }
}

pub open spec fn side_name_spec(side: Side) -> &'static str {
    match side {
        Side::Buy => "Buy",
        Side::Sell => "Sell",
    }
}

/// The side that a name stands for.
pub open spec fn side_named(name: Seq<char>) -> Option<Side> {
    if name == "Buy"@ {
        Some(Side::Buy)
    } else if name == "Sell"@ {
        Some(Side::Sell)
    } else {
        None
    }
}

/// The side that a name stands for: the one that has the name.
pub fn side_from_name(name: &str) -> (r: Option<Side>)
    ensures
        r == side_named(name@),
{
    if str_equal(name, "Buy") {
        Some(Side::Buy)
    } else if str_equal(name, "Sell") {
        Some(Side::Sell)
    } else {
        None
    }
}

/// Every side is the one that its name stands for.
pub proof fn lemma_side_by_name(side: Side)
    ensures
        side_named(side_name_spec(side)@) == Some(side),
{
    reveal_strlit("Buy");
    reveal_strlit("Sell");
    assert("Buy"@.len() == 3 && "Sell"@.len() == 4);
    match side {
        Side::Buy => {
            assert(side_name_spec(side)@ == "Buy"@);
        },
        Side::Sell => {
            assert(side_name_spec(side)@ == "Sell"@);
        },
    }
}

/// One trade of one order.
#[derive(Debug)]
pub struct Fill {
    pub order_id: String,
    pub trade_id: String,
    pub symbol: String,
    pub side: Side,
    pub price: Decimal,
    pub quantity: Decimal,
    pub fee: Decimal,
    pub fee_currency: String,
    /// Milliseconds since the Unix epoch.
    pub timestamp: i64,
}

impl Fill {
    /// The figures are within the limits of their representation.
    pub open spec fn wf(self) -> bool {
        self.price.wf() && self.quantity.wf() && self.fee.wf()
    }

    /// What the net amount of the fill is: price times quantity, less the
    /// fee where the fee is in USDT.
    pub open spec fn net_amount_spec(self) -> Option<Decimal> {
        match decimal_product(self.price, self.quantity) {
            Some(amount) => if self.fee_currency@ == "USDT"@ {
                decimal_difference(amount, self.fee)
            } else {
                Some(amount)
            },
            None => None,
        }
    }

    /// Price times quantity; none where the product does not fit.
    pub fn calculate_amount(&self) -> (r: Option<Decimal>)
        requires
            self.wf(),
        ensures
            r == decimal_product(self.price, self.quantity),
            r matches Some(d) ==> d.wf(),
    {
        checked_mul(self.price, self.quantity)
    }

    /// The amount less the fee, where the fee is in USDT; the amount
    /// otherwise.
    pub fn calculate_net_amount(&self) -> (r: Option<Decimal>)
        requires
            self.wf(),
        ensures
            r == self.net_amount_spec(),
            r matches Some(d) ==> d.wf(),
    {
        match self.calculate_amount() {
            Some(amount) => if str_equal(self.fee_currency.as_str(), "USDT") {
                checked_sub(amount, self.fee)
            } else {
                Some(amount)
            },
            None => None,
        }
    }
}

/// The orders that the ids name, in the order of the ids; an id that
/// names no order is passed over.
pub open spec fn resolved(ids: Seq<String>, orders: Table<Order>) -> Seq<Order>
    decreases ids.len(),
{
    if ids.len() == 0 {
        Seq::empty()
    } else {
        match orders.get(ids.last()@) {
            Some(o) => resolved(ids.drop_last(), orders).push(o),
            None => resolved(ids.drop_last(), orders),
        }
    }
}

/// The orders behind a list of references.
pub open spec fn pointees(refs: Seq<&Order>) -> Seq<Order> {
    Seq::new(refs.len(), |i: int| *refs[i])
}

/// The orders that the ids name, in the order of the ids.
pub fn resolve_ids<'a>(ids: &Vec<String>, orders: &'a Table<Order>) -> (r: Vec<&'a Order>)
    requires
        orders.wf(),
    ensures
        pointees(r@) == resolved(ids@, *orders),
{
    let mut out: Vec<&'a Order> = Vec::new();
    let mut i: usize = 0;
    proof {
        assert(pointees(out@) =~= resolved(ids@.subrange(0, 0), *orders));
    }
    while i < ids.len()
        invariant
            i <= ids@.len(),
            orders.wf(),
            pointees(out@) == resolved(ids@.subrange(0, i as int), *orders),
        decreases ids@.len() - i,
    {
        let ghost before = out@;
        proof {
            assert(ids@.subrange(0, i + 1).drop_last() =~= ids@.subrange(0, i as int));
        }
        match orders.lookup(ids[i].as_str()) {
            Some(o) => {
                out.push(o);
                proof {
                    assert(pointees(out@) =~= pointees(before).push(*o));
                }
            },
            None => {},
        }
        i += 1;
    }
    proof {
        assert(ids@.subrange(0, ids@.len() as int) =~= ids@);
    }
    out
}

/// The orders of the processor, with the ways to find them.
pub struct OrderBook {
    /// Every order, under its client id.
    pub orders_by_client_id: Table<Order>,
    /// The client id of an order, under the id that the exchange gave it.
    pub orders_by_exchange_id: Table<String>,
    /// The client ids of the orders of a symbol, in the order of arrival.
    pub orders_by_symbol: Table<Vec<String>>,
    /// The client ids of the orders that are with the exchange.
    pub active_orders: Vec<String>,
    /// The client ids of the orders that wait for submission.
    pub pending_orders: Vec<String>,
}

impl OrderBook {
    /// The indices are well-formed, and every order is well-formed and
    /// stands under its own client id.
    pub open spec fn wf(self) -> bool {
        &&& self.orders_by_client_id.wf()
        &&& self.orders_by_exchange_id.wf()
        &&& self.orders_by_symbol.wf()
        &&& forall|k: Seq<char>|
            (#[trigger] self.orders_by_client_id.get(k)) matches Some(o) ==> o.wf()
                && o.client_order_id@ == k
    }

    /// The order with the given client id.
    #[verifier::inline]
    pub open spec fn order(self, client_id: Seq<char>) -> Option<Order> {
        self.orders_by_client_id.get(client_id)
    }

    /// The client ids of the orders of a symbol, in the order of arrival.
    pub open spec fn ids_of_symbol(self, symbol: Seq<char>) -> Seq<String> {
        match self.orders_by_symbol.get(symbol) {
            Some(ids) => ids@,
            None => Seq::empty(),
        }
    }

    /// A book without orders.
    pub fn new() -> (r: OrderBook)
        ensures
            r.wf(),
            forall|k: Seq<char>| #[trigger] r.order(k) is None,
            r.active_orders@.len() == 0,
            r.pending_orders@.len() == 0,
    {
        OrderBook {
            orders_by_client_id: Table::new(),
            orders_by_exchange_id: Table::new(),
            orders_by_symbol: Table::new(),
            active_orders: Vec::new(),
            pending_orders: Vec::new(),
        }
    }

    /// Takes an order into the book: under its client id, at the end of
    /// the list of its symbol, under its exchange id where it has one, and
    /// among the pending or the active orders as its state says.
    pub fn add_order(&mut self, order: Order)
        requires
            old(self).wf(),
            order.wf(),
        ensures
            final(self).wf(),
            final(self).order(order.client_order_id@) == Some(order),
            forall|k: Seq<char>|
                k != order.client_order_id@ ==> #[trigger] final(self).order(k) == old(self).order(k),
            final(self).ids_of_symbol(order.symbol@) == old(self).ids_of_symbol(order.symbol@).push(
                order.client_order_id,
            ),
            forall|k: Seq<char>|
                k != order.symbol@ ==> #[trigger] final(self).orders_by_symbol.get(k) == old(self).orders_by_symbol.get(k),
            match order.exchange_order_id {
                Some(x) => final(self).orders_by_exchange_id.get(x@) == Some(order.client_order_id)
                    && forall|k: Seq<char>|
                    k != x@ ==> #[trigger] final(self).orders_by_exchange_id.get(k) == old(self).orders_by_exchange_id.get(k),
                None => final(self).orders_by_exchange_id == old(self).orders_by_exchange_id,
            },
            final(self).pending_orders@ == if order.state == OrderState::Created || order.state
                == OrderState::Validated {
                old(self).pending_orders@.push(order.client_order_id)
            } else {
                old(self).pending_orders@
            },
            final(self).active_orders@ == if order.state.is_active_spec() {
                old(self).active_orders@.push(order.client_order_id)
            } else {
                old(self).active_orders@
            },
    {
        let client_id = order.client_order_id.clone();
        match self.orders_by_symbol.find(order.symbol.as_str()) {
            Some(i) => {
                self.orders_by_symbol.values[i].push(client_id.clone());
                proof {
                    old(self).orders_by_symbol.lemma_edited(self.orders_by_symbol, i as int);
                }
            },
            None => {
                let mut ids: Vec<String> = Vec::new();
                ids.push(client_id.clone());
                proof {
                    assert(ids@ =~= Seq::<String>::empty().push(order.client_order_id));
                }
                self.orders_by_symbol.push_new(order.symbol.clone(), ids);
            },
        }
        match &order.exchange_order_id {
            Some(x) => {
                self.orders_by_exchange_id.upsert(x.clone(), client_id.clone());
            },
            None => {},
        }
        if order.state == OrderState::Created || order.state == OrderState::Validated {
            self.pending_orders.push(client_id.clone());
        } else if order.is_active() {
            self.active_orders.push(client_id.clone());
        }
        self.orders_by_client_id.upsert(client_id, order);
    }

    /// Replaces an order of the book by its new version, and moves its id
    /// between the lists: an active order joins the active ones and leaves
    /// the pending ones; a completed order leaves both.
    pub fn update_order(&mut self, order: Order)
        requires
            old(self).wf(),
            order.wf(),
        ensures
            final(self).wf(),
            final(self).order(order.client_order_id@) == Some(order),
            forall|k: Seq<char>|
                k != order.client_order_id@ ==> #[trigger] final(self).order(k) == old(self).order(k),
            final(self).orders_by_symbol == old(self).orders_by_symbol,
            match order.exchange_order_id {
                Some(x) => final(self).orders_by_exchange_id.get(x@) == Some(order.client_order_id)
                    && forall|k: Seq<char>|
                    k != x@ ==> #[trigger] final(self).orders_by_exchange_id.get(k) == old(self).orders_by_exchange_id.get(k),
                None => final(self).orders_by_exchange_id == old(self).orders_by_exchange_id,
            },
            ({
                let id = order.client_order_id;
                let joins = order.state.is_active_spec() && !listed(old(self).active_orders@, id@);
                &&& final(self).active_orders@ == if joins {
                    old(self).active_orders@.push(id)
                } else if order.is_completed_spec() {
                    without(old(self).active_orders@, id@)
                } else {
                    old(self).active_orders@
                }
                &&& final(self).pending_orders@ == if joins || order.is_completed_spec() {
                    without(old(self).pending_orders@, id@)
                } else {
                    old(self).pending_orders@
                }
            }),
    {
        let client_id = order.client_order_id.clone();
        match &order.exchange_order_id {
            Some(x) => {
                self.orders_by_exchange_id.upsert(x.clone(), client_id.clone());
            },
            None => {},
        }
        if order.is_active() && !contains_id(&self.active_orders, client_id.as_str()) {
            self.active_orders.push(client_id.clone());
            remove_id(&mut self.pending_orders, client_id.as_str());
        } else if order.is_completed() {
            remove_id(&mut self.active_orders, client_id.as_str());
            remove_id(&mut self.pending_orders, client_id.as_str());
        }
        self.orders_by_client_id.upsert(client_id, order);
    }

    /// The order with the given client id.
    pub fn get_by_client_id(&self, client_id: &str) -> (r: Option<&Order>)
        requires
            self.wf(),
        ensures
            match r {
                Some(o) => self.order(client_id@) == Some(*o),
                None => self.order(client_id@) is None,
            },
    {
        self.orders_by_client_id.lookup(client_id)
    }

    /// The order that the exchange knows under the given id.
    pub fn get_by_exchange_id(&self, exchange_id: &str) -> (r: Option<&Order>)
        requires
            self.wf(),
        ensures
            match self.orders_by_exchange_id.get(exchange_id@) {
                Some(client_id) => match r {
                    Some(o) => self.order(client_id@) == Some(*o),
                    None => self.order(client_id@) is None,
                },
                None => r is None,
            },
    {
        match self.orders_by_exchange_id.lookup(exchange_id) {
            Some(client_id) => self.orders_by_client_id.lookup(client_id.as_str()),
            None => None,
        }
    }

    /// The orders of a symbol, in the order of arrival.
    pub fn get_by_symbol(&self, symbol: &str) -> (r: Vec<&Order>)
        requires
            self.wf(),
        ensures
            pointees(r@) == resolved(self.ids_of_symbol(symbol@), self.orders_by_client_id),
    {
        match self.orders_by_symbol.lookup(symbol) {
            Some(ids) => resolve_ids(ids, &self.orders_by_client_id),
            None => {
                let out: Vec<&Order> = Vec::new();
                proof {
                    assert(pointees(out@) =~= Seq::<Order>::empty());
                }
                out
            },
        }
    }

    /// The orders that are with the exchange.
    pub fn get_active_orders(&self) -> (r: Vec<&Order>)
        requires
            self.wf(),
        ensures
            pointees(r@) == resolved(self.active_orders@, self.orders_by_client_id),
    {
        resolve_ids(&self.active_orders, &self.orders_by_client_id)
    }

    /// The orders that wait for submission.
    pub fn get_pending_orders(&self) -> (r: Vec<&Order>)
        requires
            self.wf(),
        ensures
            pointees(r@) == resolved(self.pending_orders@, self.orders_by_client_id),
    {
        resolve_ids(&self.pending_orders, &self.orders_by_client_id)
    }
}

/// The books of an order balance after every booking: whatever was
/// executed before, and whatever is booked, what was executed and what
/// remains add up to what was ordered.
pub proof fn lemma_booking_keeps_balance(o: Order, quantity: Decimal, price: Decimal, now: i64)
    requires
        o.wf(),
        booking(o, quantity, price) is Ok,
    ensures
        ({
            let after = o.after_booking(booking(o, quantity, price)->Ok_0, now);
            &&& balanced(after.executed_quantity, after.remaining_quantity, after.quantity)
            &&& after.quantity == o.quantity
            &&& (after.filled_at is Some <==> after.state == OrderState::Filled)
        }),
{
}

} // verus!
