//! The order manager: it creates orders from signals, walks them through
//! their states, books their executions and keeps the statistics.
//!
//! Every operation either takes effect as a whole or refuses and leaves
//! the manager as it was.

use vstd::prelude::*;
use vstd::string::*;
use crate::common::decimal::{checked_mul, decimal_product, Decimal};
use crate::common::table::Table;
use crate::common::text::number_text;
use crate::common::types::{ExecutionReport, OrderStatus, Signal, Symbol};
use crate::common::text::digits_of;
use crate::processor::order::arbitrage::{
    bump, bump_spec, drop_one, drop_spec, grow, grown, ArbitrageManager,
};
use crate::processor::order::order::{booking, Fill, Order, OrderBook, OrderError};
use crate::processor::order::order_state::{
    edge, next_state, OrderState, StateError, StateManager, StateTransitionEvent,
    StateTransitionHistory,
};
use crate::processor::order::priority_queue::{band_of, highest_waiting, PriorityQueue, BANDS};

verus! {

/// The counts and sums over all orders. A count that has reached the
/// largest number stays there; a sum that would not fit stays as it is.
#[derive(Debug, Clone, Copy, PartialEq, Eq, Structural)]
pub struct OrderStats {
    pub total_orders: usize,
    pub active_orders: usize,
    pub filled_orders: usize,
    pub cancelled_orders: usize,
    pub rejected_orders: usize,
    /// The sum of executed quantity times executed price over the filled
    /// orders.
    pub total_volume: Decimal,
    pub total_fees: Decimal,
    /// The share of filled orders among the filled, cancelled and rejected
    /// ones, in hundredths of a percent.
    pub success_rate_bp: u32,
    /// The mean time from submission to fill, in milliseconds.
    pub avg_fill_time_ms: u64,
}

/// Why the manager refused.
#[derive(Debug, Clone, Copy, PartialEq, Eq, Structural)]
pub enum ManagerError {
    /// The state machine refused.
    State(StateError),
    /// The book has no such order.
    UnknownOrder,
    /// The order is in a state in which it cannot be cancelled.
    CannotCancel(OrderState),
    /// The execution cannot be booked.
    Booking(OrderError),
}

/// The share of `filled` among `filled + cancelled + rejected`, in
/// hundredths of a percent; `before` where none of them is counted yet.
pub open spec fn success_rate(filled: usize, cancelled: usize, rejected: usize, before: u32) -> u32 {
    if filled + cancelled + rejected > 0 {
        ((filled * 10_000) / (filled + cancelled + rejected)) as u32
    } else {
        before
    }
}

/// The mean of `n` durations, of which the first `n - 1` have the mean
/// `mean` and the last is `latest`, rounded down; `mean` where `n` is
/// zero.
pub open spec fn running_mean(mean: u64, n: usize, latest: u64) -> u64 {
    if n > 0 {
        let m = (mean * (n - 1) + latest) / (n as int);
        if m > u64::MAX {
            u64::MAX
        } else {
            m as u64
        }
    } else {
        mean
    }
}

/// The text under which a symbol is booked: `Symbol(` the number `)`.
pub open spec fn symbol_text(symbol: Symbol) -> Seq<char> {
    "Symbol("@ + digits_of(symbol.0 as nat) + ")"@
}

/// The text under which a symbol is booked.
pub fn symbol_key(symbol: Symbol) -> (r: String)
    ensures
        r@ == symbol_text(symbol),
{
    let mut s = String::from_str("Symbol(");
    s.append(number_text(symbol.0 as u64).as_str());
    s.append(")");
    s
}

/// Every fill of the list has figures within the limits of their
/// representation.
pub open spec fn fills_wf(fills: Seq<Fill>) -> bool {
    forall|i: int| 0 <= i < fills.len() ==> (#[trigger] fills[i]).wf()
}

pub struct OrderManager {
    pub order_book: OrderBook,
    pub state_manager: StateManager,
    pub arbitrage_manager: ArbitrageManager,
    pub priority_queue: PriorityQueue,
    /// The fills of an order, oldest first, under the client id of the
    /// order.
    pub fills: Table<Vec<Fill>>,
    pub stats: OrderStats,
}

impl OrderStats {
    fn new() -> (r: OrderStats)
        ensures
            r == OrderStats::zero(),
    {
        OrderStats {
            total_orders: 0,
            active_orders: 0,
            filled_orders: 0,
            cancelled_orders: 0,
            rejected_orders: 0,
            total_volume: Decimal::zero(),
            total_fees: Decimal::zero(),
            success_rate_bp: 0,
            avg_fill_time_ms: 0,
        }
    }

    /// The statistics of a manager that has seen no order.
    pub open spec fn zero() -> OrderStats {
        OrderStats {
            total_orders: 0,
            active_orders: 0,
            filled_orders: 0,
            cancelled_orders: 0,
            rejected_orders: 0,
            total_volume: Decimal::zero_spec(),
            total_fees: Decimal::zero_spec(),
            success_rate_bp: 0,
            avg_fill_time_ms: 0,
        }
    }

    /// The statistics with the success rate brought up to the counts.
    pub open spec fn with_rate(self) -> OrderStats {
        OrderStats {
            success_rate_bp: success_rate(
                self.filled_orders,
                self.cancelled_orders,
                self.rejected_orders,
                self.success_rate_bp,
            ),
            ..self
        }
    }

    /// Brings the success rate up to the counts.
    fn update_success_rate(&mut self)
        ensures
            *final(self) == old(self).with_rate(),
    {
        let completed: u128 = self.filled_orders as u128 + self.cancelled_orders as u128
            + self.rejected_orders as u128;
        if completed > 0 {
            let filled: u128 = self.filled_orders as u128;
            let rate: u128 = (filled * 10_000) / completed;
            assert(rate <= 10_000) by (nonlinear_arith)
                requires
                    completed > 0,
                    filled <= completed,
                    rate == (filled * 10_000) / (completed as int),
            ;
            self.success_rate_bp = rate as u32;
        }
    }
}

/// What taking the next validated order off the queue gives: the id of
/// the order, if there is one, and the bands that are left. The orders
/// are looked at in the order in which the queue serves them; those that
/// are not validated any more leave the queue without being returned.
pub open spec fn next_validated(bands: Seq<Seq<String>>, book: Table<Order>) -> (Option<String>, Seq<Seq<String>>)
    decreases crate::processor::order::priority_queue::waiting(bands, BANDS as int),
    via next_validated_ends
{
    let b = highest_waiting(bands, BANDS as int);
    if bands.len() != BANDS || b < 0 {
        (None, bands)
    } else {
        let id = bands[b][0];
        let rest = crate::processor::order::priority_queue::served(bands, b);
        if (book.get(id@) matches Some(o) && o.state == OrderState::Validated) {
            (Some(id), rest)
        } else {
            next_validated(rest, book)
        }
    }
}

#[via_fn]
proof fn next_validated_ends(bands: Seq<Seq<String>>, book: Table<Order>) {
    let b = highest_waiting(bands, BANDS as int);
    if bands.len() == BANDS && b >= 0 {
        crate::processor::order::priority_queue::lemma_highest_waiting(bands, BANDS as int);
        crate::processor::order::priority_queue::lemma_served_fewer(bands, b, BANDS as int);
    }
}

impl OrderManager {
    /// Every part is well-formed.
    pub open spec fn wf(self) -> bool {
        &&& self.order_book.wf()
        &&& self.state_manager.wf()
        &&& self.arbitrage_manager.wf()
        &&& self.priority_queue.wf()
        &&& self.fills.wf()
        &&& self.stats.total_volume.wf()
        &&& self.stats.total_fees.wf()
        &&& forall|k: Seq<char>| (#[trigger] self.fills.get(k)) matches Some(v) ==> fills_wf(v@)
    }

    /// The fills of the order, oldest first.
    pub open spec fn fills_of(self, order_id: Seq<char>) -> Seq<Fill> {
        match self.fills.get(order_id) {
            Some(v) => v@,
            None => Seq::empty(),
        }
    }

    /// The client id of the order that a report is about: the order that
    /// the exchange knows under the id of the report, else the order whose
    /// client id it is.
    pub open spec fn reported_order(self, order_id: Seq<char>) -> Option<Seq<char>> {
        match self.order_book.orders_by_exchange_id.get(order_id) {
            Some(c) if self.order_book.order(c@) is Some => Some(c@),
            _ => if self.order_book.order(order_id) is Some {
                Some(order_id)
            } else {
                None
            },
        }
    }

    /// A manager without orders.
    pub fn new() -> (r: OrderManager)
        ensures
            r.wf(),
            r.stats == OrderStats::zero(),
            forall|k: Seq<char>| #[trigger] r.order_book.orders_by_client_id.get(k) is None,
            forall|k: Seq<char>| #[trigger] r.state_manager.tracks.get(k) is None,
            highest_waiting(r.priority_queue.bands(), BANDS as int) < 0,
    {
        let priority_queue = PriorityQueue::new();
        proof {
            crate::processor::order::priority_queue::lemma_highest_waiting(
                priority_queue.bands(),
                BANDS as int,
            );
            lemma_nothing_waits(priority_queue.bands(), BANDS as int);
        }
        OrderManager {
            order_book: OrderBook::new(),
            state_manager: StateManager::new(),
            arbitrage_manager: ArbitrageManager::new(),
            priority_queue,
            fills: Table::new(),
            stats: OrderStats::new(),
        }
    }

    /// Takes in an order that nothing has happened to yet: starts its state
    /// machine, takes it into the book, and enters it into its arbitrage
    /// pair where it names one. Returns the client id of the order.
    pub fn add_order(&mut self, order: Order) -> (r: String)
        requires
            old(self).wf(),
            order.wf(),
            order.state == OrderState::Created,
        ensures
            final(self).wf(),
            r == order.client_order_id,
            final(self).order_book.order(r@) == Some(order),
            forall|k: Seq<char>|
                k != r@ ==> #[trigger] final(self).order_book.orders_by_client_id.get(k) == old(self).order_book.orders_by_client_id.get(k),
            final(self).state_manager.state_of(r@) == Some(OrderState::Created),
            final(self).state_manager.history_of(r@).len() == 0,
            forall|k: Seq<char>|
                k != r@ ==> #[trigger] final(self).state_manager.tracks.get(k) == old(self).state_manager.tracks.get(k),
            final(self).priority_queue == old(self).priority_queue,
            final(self).fills == old(self).fills,
            final(self).stats == (OrderStats {
                total_orders: bump_spec(old(self).stats.total_orders),
                ..old(self).stats
            }),
    {
        let id = order.client_order_id.clone();
        self.state_manager.create_order(id.clone());
        let arbitrage_id = match &order.arbitrage_id {
            Some(a) => Some(a.clone()),
            None => None,
        };
        self.order_book.add_order(order);
        match arbitrage_id {
            Some(a) => self.arbitrage_manager.add_order(a, id.clone()),
            None => {},
        }
        self.stats.total_orders = bump(self.stats.total_orders);
        id
    }

    /// Creates the order that the signal asks for and takes it in.
    /// Returns the client id of the order.
    pub fn create_order_from_signal(&mut self, signal: Signal, now: i64) -> (r: String)
        requires
            old(self).wf(),
            signal.wf(),
        ensures
            final(self).wf(),
            r@ == "ORD_"@ + signal.id@,
            final(self).order_book.order(r@) matches Some(o) && o.is_fresh_from(signal, now),
            forall|k: Seq<char>|
                k != r@ ==> #[trigger] final(self).order_book.orders_by_client_id.get(k) == old(self).order_book.orders_by_client_id.get(k),
            final(self).state_manager.state_of(r@) == Some(OrderState::Created),
            final(self).state_manager.history_of(r@).len() == 0,
            forall|k: Seq<char>|
                k != r@ ==> #[trigger] final(self).state_manager.tracks.get(k) == old(self).state_manager.tracks.get(k),
            final(self).priority_queue == old(self).priority_queue,
            final(self).fills == old(self).fills,
            final(self).stats == (OrderStats {
                total_orders: bump_spec(old(self).stats.total_orders),
                ..old(self).stats
            }),
    {
        let order = Order::from_signal(&signal, now);
        self.add_order(order)
    }

    /// Moves the state machine of the order on `event` and, where the book
    /// has the order, the order along with it.
    fn advance(&mut self, order_id: &str, event: StateTransitionEvent, now: i64) -> (r: Result<
        OrderState,
        StateError,
    >)
        requires
            old(self).wf(),
            !(event is Fill),
        ensures
            final(self).wf(),
            advanced(*old(self), *final(self), order_id@, event, now, r),
    {
        let to = self.state_manager.transition_order(order_id, event, now)?;
        match self.order_book.orders_by_client_id.find(order_id) {
            Some(i) => {
                proof {
                    old(self).order_book.orders_by_client_id.lemma_entry(i as int);
                }
                self.order_book.orders_by_client_id.values[i].set_state(to, now);
                proof {
                    old(self).order_book.orders_by_client_id.lemma_edited(
                        self.order_book.orders_by_client_id,
                        i as int,
                    );
                }
            },
            None => {},
        }
        Ok(to)
    }

    /// Marks the order as having passed risk control, and queues it for
    /// submission at its priority.
    pub fn validate_order(&mut self, order_id: &str, now: i64) -> (r: Result<(), StateError>)
        requires
            old(self).wf(),
        ensures
            final(self).wf(),
            match r {
                Ok(()) => {
                    let mid = OrderManager { priority_queue: old(self).priority_queue, ..*final(self) };
                    &&& advanced(
                        *old(self),
                        mid,
                        order_id@,
                        StateTransitionEvent::Validate,
                        now,
                        Ok(OrderState::Validated),
                    )
                    &&& match final(self).order_book.order(order_id@) {
                        Some(o) => final(self).priority_queue.bands() == old(self).priority_queue.bands().update(
                            band_of(o.priority),
                            old(self).priority_queue.bands()[band_of(o.priority)].push(
                                o.client_order_id,
                            ),
                        ),
                        None => final(self).priority_queue == old(self).priority_queue,
                    }
                },
                Err(e) => advanced(
                    *old(self),
                    *final(self),
                    order_id@,
                    StateTransitionEvent::Validate,
                    now,
                    Err(e),
                ),
            },
    {
        self.advance(order_id, StateTransitionEvent::Validate, now)?;
        match self.order_book.orders_by_client_id.lookup(order_id) {
            Some(order) => {
                let id = order.client_order_id.clone();
                let priority = order.priority;
                self.priority_queue.push(id, priority);
            },
            None => {},
        }
        Ok(())
    }

    /// Takes the next order off the queue that is still validated, and
    /// returns its client id. Orders that left that state while they
    /// waited are dropped from the queue on the way.
    pub fn get_next_pending_order(&mut self) -> (r: Option<String>)
        requires
            old(self).wf(),
        ensures
            final(self).wf(),
            final(self).order_book == old(self).order_book,
            final(self).state_manager == old(self).state_manager,
            final(self).arbitrage_manager == old(self).arbitrage_manager,
            final(self).fills == old(self).fills,
            final(self).stats == old(self).stats,
            (r, final(self).priority_queue.bands()) == next_validated(
                old(self).priority_queue.bands(),
                old(self).order_book.orders_by_client_id,
            ),
            match r {
                Some(id) => final(self).order_book.order(id@) matches Some(o) && o.state
                    == OrderState::Validated,
                None => highest_waiting(final(self).priority_queue.bands(), BANDS as int) < 0,
            },
    {
        loop
            invariant
                self.wf(),
                self.order_book == old(self).order_book,
                self.state_manager == old(self).state_manager,
                self.arbitrage_manager == old(self).arbitrage_manager,
                self.fills == old(self).fills,
                self.stats == old(self).stats,
                next_validated(self.priority_queue.bands(), self.order_book.orders_by_client_id)
                    == next_validated(
                    old(self).priority_queue.bands(),
                    old(self).order_book.orders_by_client_id,
                ),
            decreases
                    crate::processor::order::priority_queue::waiting(
                        self.priority_queue.bands(),
                        BANDS as int,
                    ),
        {
            let ghost before = self.priority_queue.bands();
            proof {
                self.priority_queue.lemma_bands();
            }
            let id = match self.priority_queue.pop() {
                Some(id) => id,
                None => {
                    return None;
                },
            };
            proof {
                let b = highest_waiting(before, BANDS as int);
                crate::processor::order::priority_queue::lemma_highest_waiting(before, BANDS as int);
                crate::processor::order::priority_queue::lemma_served_fewer(before, b, BANDS as int);
            }
            let ready = match self.order_book.orders_by_client_id.lookup(id.as_str()) {
                Some(order) => order.state == OrderState::Validated,
                None => false,
            };
            if ready {
                return Some(id);
            }
        }
    }

    /// Marks the order as being submitted.
    pub fn mark_submitting(&mut self, order_id: &str, now: i64) -> (r: Result<(), StateError>)
        requires
            old(self).wf(),
        ensures
            final(self).wf(),
            advanced(*old(self), *final(self), order_id@, StateTransitionEvent::Submit, now, match r {
                Ok(()) => Ok(OrderState::Submitting),
                Err(e) => Err(e),
            }),
    {
        self.advance(order_id, StateTransitionEvent::Submit, now)?;
        Ok(())
    }

    /// Marks the order as taken by the exchange under `exchange_order_id`:
    /// the order gets the id and the time of submission, the book finds it
    /// under that id from now on, and one more order counts as active.
    pub fn mark_submitted(&mut self, order_id: &str, exchange_order_id: String, now: i64) -> (r: Result<
        (),
        StateError,
    >)
        requires
            old(self).wf(),
        ensures
            final(self).wf(),
            match r {
                Err(e) => advanced(
                    *old(self),
                    *final(self),
                    order_id@,
                    StateTransitionEvent::SubmitSuccess(exchange_order_id),
                    now,
                    Err(e),
                ),
                Ok(()) => {
                    &&& old(self).state_manager.state_of(order_id@) == Some(OrderState::Submitting)
                    &&& final(self).state_manager.state_of(order_id@) == Some(OrderState::Submitted)
                    &&& final(self).state_manager.history_of(order_id@) == old(self).state_manager.history_of(order_id@).push(
                        StateTransitionHistory {
                            from_state: OrderState::Submitting,
                            to_state: OrderState::Submitted,
                            event: StateTransitionEvent::SubmitSuccess(exchange_order_id),
                            timestamp: now,
                            details: None,
                        },
                    )
                    &&& forall|k: Seq<char>|
                        k != order_id@ ==> #[trigger] final(self).order_book.orders_by_client_id.get(k)
                            == old(self).order_book.orders_by_client_id.get(k)
                    &&& match old(self).order_book.order(order_id@) {
                        Some(o) => {
                            &&& final(self).order_book.order(order_id@) == Some(
                                Order {
                                    exchange_order_id: Some(exchange_order_id),
                                    submitted_at: Some(now),
                                    ..o.with_state(OrderState::Submitted, now)
                                },
                            )
                            &&& final(self).order_book.orders_by_exchange_id.get(exchange_order_id@)
                                == Some(o.client_order_id)
                            &&& final(self).stats == (OrderStats {
                                active_orders: bump_spec(old(self).stats.active_orders),
                                ..old(self).stats
                            })
                        },
                        None => final(self).order_book == old(self).order_book && final(self).stats
                            == old(self).stats,
                    }
                    &&& final(self).priority_queue == old(self).priority_queue
                    &&& final(self).fills == old(self).fills
                    &&& final(self).arbitrage_manager == old(self).arbitrage_manager
                },
            },
    {
        self.advance(order_id, StateTransitionEvent::SubmitSuccess(exchange_order_id.clone()), now)?;
        match self.order_book.orders_by_client_id.find(order_id) {
            Some(i) => {
                let ghost mid = *self;
                proof {
                    mid.order_book.orders_by_client_id.lemma_entry(i as int);
                }
                let client_id = self.order_book.orders_by_client_id.values[i].client_order_id.clone();
                self.order_book.orders_by_client_id.values[i].set_exchange_order_id(
                    exchange_order_id.clone(),
                    now,
                );
                proof {
                    mid.order_book.orders_by_client_id.lemma_edited(
                        self.order_book.orders_by_client_id,
                        i as int,
                    );
                }
                self.order_book.orders_by_exchange_id.upsert(exchange_order_id, client_id);
                self.stats.active_orders = bump(self.stats.active_orders);
            },
            None => {},
        }
        Ok(())
    }

    /// Marks the order as failed on submission. An order that has retries
    /// left counts one more retry and is queued again at its priority.
    pub fn mark_submit_failed(&mut self, order_id: &str, reason: String, now: i64) -> (r: Result<
        (),
        StateError,
    >)
        requires
            old(self).wf(),
        ensures
            final(self).wf(),
            match r {
                Err(e) => advanced(
                    *old(self),
                    *final(self),
                    order_id@,
                    StateTransitionEvent::SubmitFailed(reason),
                    now,
                    Err(e),
                ),
                Ok(()) => {
                    &&& old(self).state_manager.state_of(order_id@) == Some(OrderState::Submitting)
                    &&& final(self).state_manager.state_of(order_id@) == Some(OrderState::Failed)
                    &&& forall|k: Seq<char>|
                        k != order_id@ ==> #[trigger] final(self).order_book.orders_by_client_id.get(k)
                            == old(self).order_book.orders_by_client_id.get(k)
                    &&& match old(self).order_book.order(order_id@) {
                        Some(o) => {
                            let failed = o.with_state(OrderState::Failed, now);
                            if failed.retry_count < failed.max_retry {
                                &&& final(self).order_book.order(order_id@) == Some(
                                    Order { retry_count: (o.retry_count + 1) as u8, ..failed },
                                )
                                &&& final(self).priority_queue.bands() == old(self).priority_queue.bands().update(
                                    band_of(o.priority),
                                    old(self).priority_queue.bands()[band_of(o.priority)].push(
                                        o.client_order_id,
                                    ),
                                )
                            } else {
                                &&& final(self).order_book.order(order_id@) == Some(failed)
                                &&& final(self).priority_queue == old(self).priority_queue
                            }
                        },
                        None => final(self).order_book == old(self).order_book && final(self).priority_queue == old(self).priority_queue,
                    }
                    &&& final(self).stats == old(self).stats
                    &&& final(self).fills == old(self).fills
                    &&& final(self).arbitrage_manager == old(self).arbitrage_manager
                },
            },
    {
        self.advance(order_id, StateTransitionEvent::SubmitFailed(reason), now)?;
        match self.order_book.orders_by_client_id.find(order_id) {
            Some(i) => {
                let ghost mid = *self;
                proof {
                    mid.order_book.orders_by_client_id.lemma_entry(i as int);
                }
                if self.order_book.orders_by_client_id.values[i].can_retry() {
                    self.order_book.orders_by_client_id.values[i].increment_retry(now);
                    proof {
                        mid.order_book.orders_by_client_id.lemma_edited(
                            self.order_book.orders_by_client_id,
                            i as int,
                        );
                    }
                    let id = self.order_book.orders_by_client_id.values[i].client_order_id.clone();
                    let priority = self.order_book.orders_by_client_id.values[i].priority;
                    self.priority_queue.push(id, priority);
                }
            },
            None => {},
        }
        Ok(())
    }

    /// The state of the order, as the book has it.
    pub fn get_order_status(&self, order_id: &str) -> (r: Option<OrderState>)
        requires
            self.wf(),
        ensures
            r == (match self.order_book.order(order_id@) {
                Some(o) => Some(o.state),
                None => None,
            }),
    {
        match self.order_book.get_by_client_id(order_id) {
            Some(o) => Some(o.state),
            None => None,
        }
    }

    /// The order with the given client id.
    pub fn get_order(&self, order_id: &str) -> (r: Option<&Order>)
        requires
            self.wf(),
        ensures
            match r {
                Some(o) => self.order_book.order(order_id@) == Some(*o),
                None => self.order_book.order(order_id@) is None,
            },
    {
        self.order_book.get_by_client_id(order_id)
    }

    /// The orders that are with the exchange.
    pub fn get_active_orders(&self) -> (r: Vec<&Order>)
        requires
            self.wf(),
        ensures
            crate::processor::order::order::pointees(r@) == crate::processor::order::order::resolved(
                self.order_book.active_orders@,
                self.order_book.orders_by_client_id,
            ),
    {
        self.order_book.get_active_orders()
    }

    /// The fills of the order, oldest first.
    pub fn get_fills(&self, order_id: &str) -> (r: Option<&Vec<Fill>>)
        requires
            self.wf(),
        ensures
            match r {
                Some(v) => self.fills.get(order_id@) == Some(*v) && fills_wf(v@),
                None => self.fills.get(order_id@) is None,
            },
    {
        self.fills.lookup(order_id)
    }

    /// The statistics.
    pub fn get_stats(&self) -> (r: OrderStats)
        ensures
            r == self.stats,
    {
        self.stats
    }
}

/// What `advance` does: where the state machine refuses, nothing; where
/// it moves, the move is recorded and the order in the book, if there is
/// one, moves along.
pub open spec fn advanced(
    before: OrderManager,
    after: OrderManager,
    order_id: Seq<char>,
    event: StateTransitionEvent,
    now: i64,
    r: Result<OrderState, StateError>,
) -> bool {
    match before.state_manager.state_of(order_id) {
        None => r == Err::<OrderState, StateError>(StateError::UnknownOrder) && after == before,
        Some(from) => match next_state(from, event) {
            None => r == Err::<OrderState, StateError>(StateError::InvalidTransition(from)) && after
                == before,
            Some(to) => {
                &&& r == Ok::<OrderState, StateError>(to)
                &&& edge(from, to)
                &&& after.state_manager.state_of(order_id) == Some(to)
                &&& after.state_manager.history_of(order_id) == before.state_manager.history_of(
                    order_id,
                ).push(
                    StateTransitionHistory {
                        from_state: from,
                        to_state: to,
                        event,
                        timestamp: now,
                        details: None,
                    },
                )
                &&& forall|k: Seq<char>|
                    k != order_id ==> #[trigger] after.state_manager.tracks.get(k)
                        == before.state_manager.tracks.get(k)
                &&& after.order_book.order(order_id) == (match before.order_book.order(order_id) {
                    Some(o) => Some(o.with_state(to, now)),
                    None => None,
                })
                &&& forall|k: Seq<char>|
                    k != order_id ==> #[trigger] after.order_book.orders_by_client_id.get(k)
                        == before.order_book.orders_by_client_id.get(k)
                &&& before.order_book.order(order_id) is None ==> after.order_book == before.order_book
                &&& after.order_book.orders_by_exchange_id == before.order_book.orders_by_exchange_id
                &&& after.order_book.orders_by_symbol == before.order_book.orders_by_symbol
                &&& after.order_book.active_orders == before.order_book.active_orders
                &&& after.order_book.pending_orders == before.order_book.pending_orders
                &&& after.arbitrage_manager == before.arbitrage_manager
                &&& after.priority_queue == before.priority_queue
                &&& after.fills == before.fills
                &&& after.stats == before.stats
            },
        },
    }
}

/// Where every band is empty, no band is named as the highest waiting
/// one.
pub proof fn lemma_nothing_waits(bands: Seq<Seq<String>>, upto: int)
    requires
        0 <= upto <= bands.len(),
        forall|i: int| 0 <= i < upto ==> (#[trigger] bands[i]).len() == 0,
    ensures
        highest_waiting(bands, upto) < 0,
    decreases upto,
{
    if upto > 0 {
        lemma_nothing_waits(bands, upto - 1);
    }
}

/// The time from `then` to `now` in milliseconds; zero where `now` is not
/// after `then`.
pub open spec fn elapsed(now: i64, then: i64) -> u64 {
    if now > then {
        (now - then) as u64
    } else {
        0
    }
}

/// The fill is the one that a report gives rise to.
pub open spec fn is_fill_of(
    f: Fill,
    order_id: Seq<char>,
    report: ExecutionReport,
    trade_id: String,
    now: i64,
) -> bool {
    &&& f.order_id@ == order_id
    &&& f.trade_id == trade_id
    &&& f.symbol@ == symbol_text(report.symbol)
    &&& f.side == report.side
    &&& f.price == report.price
    &&& f.quantity == report.filled_quantity
    &&& f.fee == Decimal::zero_spec()
    &&& f.fee_currency@ == "USDT"@
    &&& f.timestamp == now
}

/// What recording a fill does to the fills: the order has one more, the
/// last; all others are as they were.
pub open spec fn fill_recorded(
    before: OrderManager,
    after: OrderManager,
    order_id: Seq<char>,
    report: ExecutionReport,
    trade_id: String,
    now: i64,
) -> bool {
    &&& after.fills_of(order_id).len() == before.fills_of(order_id).len() + 1
    &&& after.fills_of(order_id).drop_last() == before.fills_of(order_id)
    &&& is_fill_of(after.fills_of(order_id).last(), order_id, report, trade_id, now)
    &&& forall|k: Seq<char>| k != order_id ==> #[trigger] after.fills.get(k) == before.fills.get(k)
}

/// The statistics after `order` was filled at `now`.
pub open spec fn stats_after_fill(stats: OrderStats, order: Order, now: i64) -> OrderStats {
    let filled = bump_spec(stats.filled_orders);
    (OrderStats {
        filled_orders: filled,
        active_orders: drop_spec(stats.active_orders),
        total_volume: match decimal_product(order.executed_quantity, order.executed_price) {
            Some(v) => grown(stats.total_volume, v),
            None => stats.total_volume,
        },
        avg_fill_time_ms: match order.submitted_at {
            Some(t) => running_mean(stats.avg_fill_time_ms, filled, elapsed(now, t)),
            None => stats.avg_fill_time_ms,
        },
        ..stats
    }).with_rate()
}

/// The event that a report of an execution stands for.
pub open spec fn execution_event(report: ExecutionReport, full: bool) -> StateTransitionEvent {
    if full {
        StateTransitionEvent::Fill
    } else {
        StateTransitionEvent::PartialFill(report.filled_quantity, report.price)
    }
}

/// What booking a reported execution does. The state machine must allow
/// the move and the figures must have a booking, else nothing changes.
/// Then the move is recorded, the order takes the figures (and is filled,
/// where the report says so), the fill is recorded, and a full fill is
/// counted and passed on to the arbitrage pair of the order.
pub open spec fn booked(
    before: OrderManager,
    after: OrderManager,
    order_id: Seq<char>,
    report: ExecutionReport,
    trade_id: String,
    now: i64,
    full: bool,
    r: Result<(), ManagerError>,
) -> bool {
    let event = execution_event(report, full);
    match before.state_manager.state_of(order_id) {
        None => r == Err::<(), ManagerError>(ManagerError::State(StateError::UnknownOrder)) && after
            == before,
        Some(from) => match (next_state(from, event), before.order_book.order(order_id)) {
            (None, _) => r == Err::<(), ManagerError>(
                ManagerError::State(StateError::InvalidTransition(from)),
            ) && after == before,
            (Some(_), None) => r == Err::<(), ManagerError>(ManagerError::UnknownOrder) && after
                == before,
            (Some(to), Some(o)) => match booking(o, report.filled_quantity, report.price) {
                Err(e) => r == Err::<(), ManagerError>(ManagerError::Booking(e)) && after == before,
                Ok(b) => {
                    let taken = o.after_booking(b, now);
                    let order = if full {
                        Order { state: OrderState::Filled, filled_at: Some(now), ..taken }
                    } else {
                        taken
                    };
                    &&& r == Ok::<(), ManagerError>(())
                    &&& after.state_manager.state_of(order_id) == Some(to)
                    &&& after.state_manager.history_of(order_id)
                        == before.state_manager.history_of(order_id).push(
                        StateTransitionHistory {
                            from_state: from,
                            to_state: to,
                            event,
                            timestamp: now,
                            details: None,
                        },
                    )
                    &&& forall|k: Seq<char>|
                        k != order_id ==> #[trigger] after.state_manager.tracks.get(k)
                            == before.state_manager.tracks.get(k)
                    &&& after.order_book.order(order_id) == Some(order)
                    &&& forall|k: Seq<char>|
                        k != order_id ==> #[trigger] after.order_book.orders_by_client_id.get(k)
                            == before.order_book.orders_by_client_id.get(k)
                    &&& after.order_book.orders_by_exchange_id
                        == before.order_book.orders_by_exchange_id
                    &&& after.order_book.orders_by_symbol == before.order_book.orders_by_symbol
                    &&& after.order_book.active_orders == before.order_book.active_orders
                    &&& after.order_book.pending_orders == before.order_book.pending_orders
                    &&& fill_recorded(before, after, order_id, report, trade_id, now)
                    &&& after.priority_queue == before.priority_queue
                    &&& after.stats == if full {
                        stats_after_fill(
                            OrderStats {
                                total_fees: grown(before.stats.total_fees, Decimal::zero_spec()),
                                ..before.stats
                            },
                            order,
                            now,
                        )
                    } else {
                        OrderStats {
                            total_fees: grown(before.stats.total_fees, Decimal::zero_spec()),
                            ..before.stats
                        }
                    }
                    &&& match order.arbitrage_id {
                        Some(a) if full => crate::processor::order::arbitrage::status_noted(
                            before.arbitrage_manager,
                            after.arbitrage_manager,
                            a@,
                            order_id,
                            OrderState::Filled,
                            now,
                        ),
                        _ => after.arbitrage_manager == before.arbitrage_manager,
                    }
                },
            },
        },
    }
}

/// The statistics after an order left the active ones as cancelled or as
/// rejected.
pub open spec fn stats_after_end(stats: OrderStats, rejected: bool) -> OrderStats {
    (OrderStats {
        cancelled_orders: if rejected {
            stats.cancelled_orders
        } else {
            bump_spec(stats.cancelled_orders)
        },
        rejected_orders: if rejected {
            bump_spec(stats.rejected_orders)
        } else {
            stats.rejected_orders
        },
        active_orders: drop_spec(stats.active_orders),
        ..stats
    }).with_rate()
}

/// What an event that ends an order does: the state machine moves as
/// [`advanced`] tells it, and where it moved the order is counted as
/// cancelled or as rejected.
pub open spec fn ended(
    before: OrderManager,
    after: OrderManager,
    order_id: Seq<char>,
    event: StateTransitionEvent,
    to: OrderState,
    now: i64,
    r: Result<(), ManagerError>,
) -> bool {
    match r {
        Ok(()) => advanced(
            before,
            OrderManager { stats: before.stats, ..after },
            order_id,
            event,
            now,
            Ok(to),
        ) && after.stats == stats_after_end(before.stats, to == OrderState::Rejected),
        Err(ManagerError::State(e)) => advanced(before, after, order_id, event, now, Err(e)),
        Err(_) => false,
    }
}

/// What a report of a cancellation does. Where the cancellation was
/// asked for before, the state machine stands in `Cancelled` already and
/// only the order follows; else the order is cancelled now. Either way it
/// is counted.
pub open spec fn cancellation_reported(
    before: OrderManager,
    after: OrderManager,
    order_id: Seq<char>,
    now: i64,
    r: Result<(), ManagerError>,
) -> bool {
    if before.state_manager.state_of(order_id) == Some(OrderState::Cancelled) {
        &&& r == Ok::<(), ManagerError>(())
        &&& after.state_manager == before.state_manager
        &&& after.order_book.order(order_id) == (match before.order_book.order(order_id) {
            Some(o) => Some(o.with_state(OrderState::Cancelled, now)),
            None => None,
        })
        &&& forall|k: Seq<char>|
            k != order_id ==> #[trigger] after.order_book.orders_by_client_id.get(k)
                == before.order_book.orders_by_client_id.get(k)
        &&& after.order_book.orders_by_exchange_id == before.order_book.orders_by_exchange_id
        &&& after.order_book.orders_by_symbol == before.order_book.orders_by_symbol
        &&& after.order_book.active_orders == before.order_book.active_orders
        &&& after.order_book.pending_orders == before.order_book.pending_orders
        &&& after.arbitrage_manager == before.arbitrage_manager
        &&& after.priority_queue == before.priority_queue
        &&& after.fills == before.fills
        &&& after.stats == stats_after_end(before.stats, false)
    } else {
        ended(before, after, order_id, StateTransitionEvent::Cancel, OrderState::Cancelled, now, r)
    }
}

/// What a report of an acknowledgement does.
pub open spec fn acknowledged(
    before: OrderManager,
    after: OrderManager,
    order_id: Seq<char>,
    now: i64,
    r: Result<(), ManagerError>,
) -> bool {
    match r {
        Ok(()) => advanced(
            before,
            after,
            order_id,
            StateTransitionEvent::Acknowledge,
            now,
            Ok(OrderState::Acknowledged),
        ),
        Err(ManagerError::State(e)) => advanced(
            before,
            after,
            order_id,
            StateTransitionEvent::Acknowledge,
            now,
            Err(e),
        ),
        Err(_) => false,
    }
}

/// What a report of a rejection does: the order ends as rejected, with
/// the reason `Order rejected` on record.
pub open spec fn rejection_reported(
    before: OrderManager,
    after: OrderManager,
    order_id: Seq<char>,
    reason: String,
    now: i64,
    r: Result<(), ManagerError>,
) -> bool {
    reason@ == "Order rejected"@ && ended(
        before,
        after,
        order_id,
        StateTransitionEvent::Reject(reason),
        OrderState::Rejected,
        now,
        r,
    )
}

/// What a report about the order `order_id` does, by the status that it
/// reports.
pub open spec fn report_taken(
    before: OrderManager,
    after: OrderManager,
    order_id: Seq<char>,
    report: ExecutionReport,
    trade_id: String,
    now: i64,
    r: Result<(), ManagerError>,
) -> bool {
    match report.status {
        OrderStatus::Pending => acknowledged(before, after, order_id, now, r),
        OrderStatus::PartiallyFilled => booked(before, after, order_id, report, trade_id, now, false, r),
        OrderStatus::Filled => booked(before, after, order_id, report, trade_id, now, true, r),
        OrderStatus::Cancelled => cancellation_reported(before, after, order_id, now, r),
        OrderStatus::Rejected => exists|reason: String|
            reason@ == "Order rejected"@ && #[trigger] rejection_reported(
                before,
                after,
                order_id,
                reason,
                now,
                r,
            ),
        OrderStatus::Placed => r == Ok::<(), ManagerError>(()) && after == before,
    }
}

/// An order is too old to keep: it has come to an end, and was last
/// touched more than `keep_hours` before `now`.
pub open spec fn stale(order: Order, keep_hours: i64, now: i64) -> bool {
    order.state.is_terminal_spec() && order.updated_at < now - keep_hours * 3_600_000
}

impl OrderManager {
    /// Adds a fill to the fills of the order.
    fn record_fill(&mut self, order_id: &str, report: &ExecutionReport, trade_id: String, now: i64)
        requires
            old(self).wf(),
            report.wf(),
        ensures
            final(self).wf(),
            fill_recorded(*old(self), *final(self), order_id@, *report, trade_id, now),
            final(self).order_book == old(self).order_book,
            final(self).state_manager == old(self).state_manager,
            final(self).arbitrage_manager == old(self).arbitrage_manager,
            final(self).priority_queue == old(self).priority_queue,
            final(self).stats == (OrderStats {
                total_fees: grown(old(self).stats.total_fees, Decimal::zero_spec()),
                ..old(self).stats
            }),
    {
        let fill = Fill {
            order_id: String::from_str(order_id),
            trade_id,
            symbol: symbol_key(report.symbol),
            side: report.side,
            price: report.price,
            quantity: report.filled_quantity,
            fee: Decimal::zero(),
            fee_currency: String::from_str("USDT"),
            timestamp: now,
        };
        let fee = fill.fee;
        match self.fills.find(order_id) {
            Some(i) => {
                proof {
                    old(self).fills.lemma_entry(i as int);
                }
                let ghost before = self.fills.values@[i as int]@;
                self.fills.values[i].push(fill);
                proof {
                    old(self).fills.lemma_edited(self.fills, i as int);
                    let after = self.fills.values@[i as int]@;
                    assert(after.drop_last() =~= before);
                    assert(fills_wf(before));
                    assert forall|j: int| 0 <= j < after.len() implies (#[trigger] after[j]).wf() by {
                        if j < before.len() {
                            assert(after[j] == before[j]);
                        }
                    }
                }
            },
            None => {
                let mut list: Vec<Fill> = Vec::new();
                list.push(fill);
                proof {
                    assert(list@.drop_last() =~= Seq::<Fill>::empty());
                }
                self.fills.push_new(String::from_str(order_id), list);
            },
        }
        self.stats.total_fees = grow(self.stats.total_fees, fee);
    }

    /// Takes one more fill time into the mean.
    fn update_avg_fill_time(&mut self, new_time_ms: u64)
        ensures
            *final(self) == (OrderManager {
                stats: OrderStats {
                    avg_fill_time_ms: running_mean(
                        old(self).stats.avg_fill_time_ms,
                        old(self).stats.filled_orders,
                        new_time_ms,
                    ),
                    ..old(self).stats
                },
                ..*old(self)
            }),
    {
        let n: u128 = self.stats.filled_orders as u128;
        if n > 0 {
            let mean: u128 = self.stats.avg_fill_time_ms as u128;
            assert(mean * (n - 1) <= 0xFFFF_FFFF_FFFF_FFFF * 0xFFFF_FFFF_FFFF_FFFF) by (nonlinear_arith)
                requires
                    mean <= 0xFFFF_FFFF_FFFF_FFFF,
                    0 < n <= 0xFFFF_FFFF_FFFF_FFFF,
            ;
            let sum: u128 = mean * (n - 1) + new_time_ms as u128;
            let m: u128 = sum / n;
            self.stats.avg_fill_time_ms = if m > u64::MAX as u128 {
                u64::MAX
            } else {
                m as u64
            };
        }
    }

    /// Books a reported execution: a partial one, or a full one.
    fn book_execution(&mut self, order_id: &str, report: &ExecutionReport, trade_id: String, now: i64, full: bool) -> (r:
        Result<(), ManagerError>)
        requires
            old(self).wf(),
            report.wf(),
        ensures
            final(self).wf(),
            booked(*old(self), *final(self), order_id@, *report, trade_id, now, full, r),
    {
        let event = if full {
            StateTransitionEvent::Fill
        } else {
            StateTransitionEvent::PartialFill(report.filled_quantity, report.price)
        };
        match self.state_manager.check(order_id, &event) {
            Ok(_) => {},
            Err(e) => {
                return Err(ManagerError::State(e));
            },
        }
        let i = match self.order_book.orders_by_client_id.find(order_id) {
            Some(i) => i,
            None => {
                return Err(ManagerError::UnknownOrder);
            },
        };
        proof {
            old(self).order_book.orders_by_client_id.lemma_entry(i as int);
        }
        let b = match self.order_book.orders_by_client_id.values[i].preview_execution(
            report.filled_quantity,
            report.price,
        ) {
            Ok(b) => b,
            Err(e) => {
                return Err(ManagerError::Booking(e));
            },
        };
        match self.state_manager.transition_order(order_id, event, now) {
            Ok(_) => {},
            Err(e) => {
                return Err(ManagerError::State(e));
            },
        }
        self.order_book.orders_by_client_id.values[i].apply_booking(b, now);
        if full {
            self.order_book.orders_by_client_id.values[i].mark_filled(now);
        }
        proof {
            old(self).order_book.orders_by_client_id.lemma_edited(
                self.order_book.orders_by_client_id,
                i as int,
            );
        }
        self.record_fill(order_id, report, trade_id, now);
        if full {
            let order = &self.order_book.orders_by_client_id.values[i];
            let volume = checked_mul(order.executed_quantity, order.executed_price);
            let submitted_at = order.submitted_at;
            let arbitrage_id = match &order.arbitrage_id {
                Some(a) => Some(a.clone()),
                None => None,
            };
            self.stats.filled_orders = bump(self.stats.filled_orders);
            self.stats.active_orders = drop_one(self.stats.active_orders);
            match volume {
                Some(v) => {
                    self.stats.total_volume = grow(self.stats.total_volume, v);
                },
                None => {},
            }
            match submitted_at {
                Some(t) => {
                    let fill_time: u64 = if now > t {
                        (now as i128 - t as i128) as u64
                    } else {
                        0
                    };
                    self.update_avg_fill_time(fill_time);
                },
                None => {},
            }
            match arbitrage_id {
                Some(a) => {
                    self.arbitrage_manager.update_order_status(
                        a.as_str(),
                        order_id,
                        OrderState::Filled,
                        now,
                    );
                },
                None => {},
            }
            self.stats.update_success_rate();
        }
        Ok(())
    }

    /// Moves the order on an event that ends it, and counts it as
    /// cancelled or as rejected.
    fn end_order(&mut self, order_id: &str, event: StateTransitionEvent, now: i64) -> (r: Result<
        (),
        ManagerError,
    >)
        requires
            old(self).wf(),
            event is Cancel || event is Reject,
        ensures
            final(self).wf(),
            ended(*old(self), *final(self), order_id@, event, if event is Reject {
                OrderState::Rejected
            } else {
                OrderState::Cancelled
            }, now, r),
    {
        let rejected = matches!(event, StateTransitionEvent::Reject(_));
        match self.advance(order_id, event, now) {
            Ok(_) => {},
            Err(e) => {
                return Err(ManagerError::State(e));
            },
        }
        self.count_end(rejected);
        Ok(())
    }

    /// Counts an order as cancelled or as rejected.
    fn count_end(&mut self, rejected: bool)
        ensures
            *final(self) == (OrderManager {
                stats: stats_after_end(old(self).stats, rejected),
                ..*old(self)
            }),
    {
        if rejected {
            self.stats.rejected_orders = bump(self.stats.rejected_orders);
        } else {
            self.stats.cancelled_orders = bump(self.stats.cancelled_orders);
        }
        self.stats.active_orders = drop_one(self.stats.active_orders);
        self.stats.update_success_rate();
    }

    /// Takes in a report of a cancellation.
    fn handle_order_cancelled(&mut self, order_id: &str, now: i64) -> (r: Result<(), ManagerError>)
        requires
            old(self).wf(),
        ensures
            final(self).wf(),
            cancellation_reported(*old(self), *final(self), order_id@, now, r),
    {
        let asked_before = match self.state_manager.get_state(order_id) {
            Some(s) => s == OrderState::Cancelled,
            None => false,
        };
        if !asked_before {
            return self.end_order(order_id, StateTransitionEvent::Cancel, now);
        }
        match self.order_book.orders_by_client_id.find(order_id) {
            Some(i) => {
                proof {
                    old(self).order_book.orders_by_client_id.lemma_entry(i as int);
                }
                self.order_book.orders_by_client_id.values[i].set_state(OrderState::Cancelled, now);
                proof {
                    old(self).order_book.orders_by_client_id.lemma_edited(
                        self.order_book.orders_by_client_id,
                        i as int,
                    );
                }
            },
            None => {},
        }
        self.count_end(false);
        Ok(())
    }

    /// Marks an active order as expired; one order less counts as active.
    pub fn handle_order_expired(&mut self, order_id: &str, now: i64) -> (r: Result<(), StateError>)
        requires
            old(self).wf(),
        ensures
            final(self).wf(),
            match r {
                Ok(()) => advanced(
                    *old(self),
                    OrderManager { stats: old(self).stats, ..*final(self) },
                    order_id@,
                    StateTransitionEvent::Expire,
                    now,
                    Ok(OrderState::Expired),
                ) && final(self).stats == (OrderStats {
                    active_orders: drop_spec(old(self).stats.active_orders),
                    ..old(self).stats
                }),
                Err(e) => advanced(
                    *old(self),
                    *final(self),
                    order_id@,
                    StateTransitionEvent::Expire,
                    now,
                    Err(e),
                ),
            },
    {
        self.advance(order_id, StateTransitionEvent::Expire, now)?;
        self.stats.active_orders = drop_one(self.stats.active_orders);
        Ok(())
    }

    /// The client id of the order that a report is about.
    fn resolve_report(&self, order_id: &str) -> (r: Option<String>)
        requires
            self.wf(),
        ensures
            match r {
                Some(id) => self.reported_order(order_id@) == Some(id@),
                None => self.reported_order(order_id@) is None,
            },
    {
        match self.order_book.get_by_exchange_id(order_id) {
            Some(o) => Some(o.client_order_id.clone()),
            None => match self.order_book.get_by_client_id(order_id) {
                Some(o) => Some(o.client_order_id.clone()),
                None => None,
            },
        }
    }

    /// Takes in what the exchange reported about an order. The report
    /// names the order by its exchange id or by its client id. A pending
    /// order is acknowledged, a trade is booked in part or in full, a
    /// cancellation or a rejection ends the order; a report that the order
    /// was placed changes nothing. `trade_id` names the fill that a trade
    /// gives rise to.
    pub fn process_execution_report(&mut self, report: ExecutionReport, trade_id: String, now: i64) -> (r:
        Result<(), ManagerError>)
        requires
            old(self).wf(),
            report.wf(),
        ensures
            final(self).wf(),
            match old(self).reported_order(report.order_id@) {
                None => r == Err::<(), ManagerError>(ManagerError::UnknownOrder) && *final(self)
                    == *old(self),
                Some(id) => report_taken(*old(self), *final(self), id, report, trade_id, now, r),
            },
    {
        let id = match self.resolve_report(report.order_id.as_str()) {
            Some(id) => id,
            None => {
                return Err(ManagerError::UnknownOrder);
            },
        };
        match report.status {
            OrderStatus::Pending => match self.advance(
                id.as_str(),
                StateTransitionEvent::Acknowledge,
                now,
            ) {
                Ok(_) => Ok(()),
                Err(e) => Err(ManagerError::State(e)),
            },
            OrderStatus::PartiallyFilled => self.book_execution(
                id.as_str(),
                &report,
                trade_id,
                now,
                false,
            ),
            OrderStatus::Filled => self.book_execution(id.as_str(), &report, trade_id, now, true),
            OrderStatus::Cancelled => self.handle_order_cancelled(id.as_str(), now),
            OrderStatus::Rejected => {
                let reason = String::from_str("Order rejected");
                let r = self.end_order(id.as_str(), StateTransitionEvent::Reject(reason), now);
                proof {
                    assert(rejection_reported(*old(self), *self, id@, reason, now, r));
                }
                r
            },
            OrderStatus::Placed => Ok(()),
        }
    }

    /// Asks for the cancellation of an order: the state machine moves to
    /// `Cancelled`; the order follows when the exchange reports the
    /// cancellation.
    pub fn cancel_order(&mut self, order_id: &str, now: i64) -> (r: Result<(), ManagerError>)
        requires
            old(self).wf(),
        ensures
            final(self).wf(),
            final(self).order_book == old(self).order_book,
            final(self).arbitrage_manager == old(self).arbitrage_manager,
            final(self).priority_queue == old(self).priority_queue,
            final(self).fills == old(self).fills,
            final(self).stats == old(self).stats,
            match old(self).order_book.order(order_id@) {
                None => r == Err::<(), ManagerError>(ManagerError::UnknownOrder) && *final(self)
                    == *old(self),
                Some(o) => if !o.state.can_cancel_spec() {
                    r == Err::<(), ManagerError>(ManagerError::CannotCancel(o.state)) && *final(self)
                        == *old(self)
                } else {
                    match old(self).state_manager.state_of(order_id@) {
                        None => r == Err::<(), ManagerError>(
                            ManagerError::State(StateError::UnknownOrder),
                        ) && *final(self) == *old(self),
                        Some(from) => if from.can_cancel_spec() {
                            &&& r == Ok::<(), ManagerError>(())
                            &&& final(self).state_manager.state_of(order_id@) == Some(
                                OrderState::Cancelled,
                            )
                            &&& final(self).state_manager.history_of(order_id@) == old(self).state_manager.history_of(order_id@).push(
                                StateTransitionHistory {
                                    from_state: from,
                                    to_state: OrderState::Cancelled,
                                    event: StateTransitionEvent::Cancel,
                                    timestamp: now,
                                    details: None,
                                },
                            )
                            &&& forall|k: Seq<char>|
                                k != order_id@ ==> #[trigger] final(self).state_manager.tracks.get(k)
                                    == old(self).state_manager.tracks.get(k)
                        } else {
                            r == Err::<(), ManagerError>(
                                ManagerError::State(StateError::InvalidTransition(from)),
                            ) && *final(self) == *old(self)
                        },
                    }
                },
            },
    {
        let state = match self.order_book.get_by_client_id(order_id) {
            Some(o) => o.state,
            None => {
                return Err(ManagerError::UnknownOrder);
            },
        };
        if !state.can_cancel() {
            return Err(ManagerError::CannotCancel(state));
        }
        match self.state_manager.transition_order(order_id, StateTransitionEvent::Cancel, now) {
            Ok(_) => Ok(()),
            Err(e) => Err(ManagerError::State(e)),
        }
    }

    /// Removes the orders that came to an end and were last touched more
    /// than `keep_hours` ago, with their fills and their state machines.
    pub fn cleanup_completed_orders(&mut self, keep_hours: i64, now: i64)
        requires
            old(self).wf(),
        ensures
            final(self).wf(),
            final(self).stats == old(self).stats,
            final(self).priority_queue == old(self).priority_queue,
            final(self).arbitrage_manager == old(self).arbitrage_manager,
            forall|k: Seq<char>|
                #[trigger] final(self).order_book.orders_by_client_id.get(k) == (match old(self).order_book.order(k) {
                    Some(o) => if stale(o, keep_hours, now) {
                        None
                    } else {
                        Some(o)
                    },
                    None => None,
                }),
            forall|k: Seq<char>|
                #[trigger] final(self).fills.get(k) == (match old(self).order_book.order(k) {
                    Some(o) if stale(o, keep_hours, now) => None,
                    _ => old(self).fills.get(k),
                }),
            forall|k: Seq<char>|
                #[trigger] final(self).state_manager.tracks.get(k) == (match old(self).order_book.order(k) {
                    Some(o) if stale(o, keep_hours, now) => None,
                    _ => old(self).state_manager.tracks.get(k),
                }),
    {
        let mut i: usize = 0;
        while i < self.order_book.orders_by_client_id.values.len()
            invariant
                self.wf(),
                self.stats == old(self).stats,
                self.priority_queue == old(self).priority_queue,
                self.arbitrage_manager == old(self).arbitrage_manager,
                i <= self.order_book.orders_by_client_id.values@.len(),
                forall|j: int|
                    0 <= j < i ==> !stale(
                        #[trigger] self.order_book.orders_by_client_id.values@[j],
                        keep_hours,
                        now,
                    ),
                forall|k: Seq<char>|
                    #[trigger] self.order_book.orders_by_client_id.get(k) == (match old(self).order_book.order(k) {
                        Some(o) => if stale(o, keep_hours, now)
                            && self.order_book.orders_by_client_id.get(k) is None {
                            None
                        } else {
                            Some(o)
                        },
                        None => None,
                    }),
                forall|k: Seq<char>|
                    #[trigger] self.fills.get(k) == if old(self).order_book.order(k) is Some
                        && self.order_book.orders_by_client_id.get(k) is None {
                        None
                    } else {
                        old(self).fills.get(k)
                    },
                forall|k: Seq<char>|
                    #[trigger] self.state_manager.tracks.get(k) == if old(self).order_book.order(k)
                        is Some && self.order_book.orders_by_client_id.get(k) is None {
                        None
                    } else {
                        old(self).state_manager.tracks.get(k)
                    },
            decreases self.order_book.orders_by_client_id.values@.len() - i,
        {
            let order = &self.order_book.orders_by_client_id.values[i];
            let too_old = order.state.is_terminal() && crate::processor::order::arbitrage::before_cutoff(
                order.updated_at,
                keep_hours,
                now,
            );
            if too_old {
                let ghost snapshot = *self;
                proof {
                    snapshot.order_book.orders_by_client_id.lemma_entry(i as int);
                }
                let (key, _) = self.order_book.orders_by_client_id.remove_at(i);
                self.fills.remove(key.as_str());
                self.state_manager.remove_order(key.as_str());
                proof {
                    assert forall|j: int| 0 <= j < i implies !stale(
                        #[trigger] self.order_book.orders_by_client_id.values@[j],
                        keep_hours,
                        now,
                    ) by {
                        assert(self.order_book.orders_by_client_id.values@[j]
                            == snapshot.order_book.orders_by_client_id.values@[j]);
                    }
                }
            } else {
                i += 1;
            }
        }
        proof {
            assert forall|k: Seq<char>|
                #[trigger] self.order_book.orders_by_client_id.get(k) == (match old(self).order_book.order(k) {
                    Some(o) => if stale(o, keep_hours, now) {
                        None
                    } else {
                        Some(o)
                    },
                    None => None,
                }) by {
                if self.order_book.orders_by_client_id.get(k) is Some {
                    self.order_book.orders_by_client_id.lemma_slot(k);
                    let j = self.order_book.orders_by_client_id.slot(k);
                    assert(!stale(self.order_book.orders_by_client_id.values@[j], keep_hours, now));
                }
            }
        }
    }
}

} // verus!
