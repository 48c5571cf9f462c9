//! The state that the pipelines share: positions, risk quotas and the
//! total exposure.
//!
//! An update that cannot be computed is refused as a whole: positions,
//! quotas and exposure stay as they were.

use vstd::prelude::*;
use vstd::string::*;
use crate::common::decimal::{
    checked_add, checked_div, checked_mul, checked_sub, decimal_difference, decimal_product,
    decimal_quotient, decimal_sum, Decimal,
};
use crate::common::table::Table;
use crate::common::types::{ExecutionReport, OrderStatus, Side, Signal};
use crate::processor::order::order_manager::{symbol_key, symbol_text};

verus! {

/// What is held of one symbol.
#[derive(Debug)]
pub struct PositionInfo {
    pub symbol: String,
    pub quantity: Decimal,
    /// The average price paid, weighted by quantity.
    pub avg_price: Decimal,
    pub realized_pnl: Decimal,
    pub unrealized_pnl: Decimal,
    /// Milliseconds since the Unix epoch.
    pub last_update: i64,
}

/// The limits of one symbol, and how far they are used.
#[derive(Debug, Clone, Copy, PartialEq, Eq, Structural)]
pub struct RiskQuota {
    pub max_position: Decimal,
    pub max_capital: Decimal,
    pub max_pending_orders: usize,
    pub max_daily_trades: usize,
    pub min_cooldown_seconds: i64,
    pub current_position: Decimal,
    pub current_capital: Decimal,
    pub pending_orders: usize,
    pub daily_trades: usize,
    /// Milliseconds since the Unix epoch.
    pub last_trade_time: Option<i64>,
}

/// Why an update was refused.
#[derive(Debug, Clone, Copy, PartialEq, Eq, Structural)]
pub enum RiskError {
    /// A sum, product or quotient does not fit a decimal.
    Arithmetic,
}

/// What the outside reports of the risk state.
#[derive(Debug)]
pub struct RiskSummary {
    pub total_exposure: Decimal,
    pub risk_level: crate::common::types::RiskLevel,
    pub active_positions: usize,
    pub daily_trades: usize,
    pub daily_pnl: Decimal,
    pub restricted_symbols: Vec<String>,
    pub global_restricted: bool,
}

/// `a <= b`, where a decimal that is missing counts as too large.
pub open spec fn within(a: Option<Decimal>, b: Decimal) -> bool {
    a matches Some(x) && x.le_spec(b)
}

/// Whole seconds from `then` to `now`, rounded towards zero.
pub open spec fn elapsed_seconds(now: i64, then: i64) -> int {
    if now >= then {
        (now - then) / 1000
    } else {
        -((then - now) / 1000)
    }
}

/// Whole seconds from `then` to `now`, rounded towards zero.
pub fn seconds_between(now: i64, then: i64) -> (r: i128)
    ensures
        r == elapsed_seconds(now, then),
{
    if now >= then {
        (now as i128 - then as i128) / 1000
    } else {
        -((then as i128 - now as i128) / 1000)
    }
}

/// Whether a report with this status ends its order: the order is
/// filled, cancelled or rejected.
pub open spec fn is_terminal_status(status: OrderStatus) -> bool {
    status == OrderStatus::Filled || status == OrderStatus::Cancelled || status == OrderStatus::Rejected
}

/// Whether a report with this status ends its order.
pub fn ends_order(status: OrderStatus) -> (r: bool)
    ensures
        r == is_terminal_status(status),
{
    match status {
        OrderStatus::Filled | OrderStatus::Cancelled | OrderStatus::Rejected => true,
        _ => false,
    }
}

impl RiskQuota {
    /// The figures are within the limits of their representation.
    pub open spec fn wf(self) -> bool {
        &&& self.max_position.wf()
        &&& self.max_capital.wf()
        &&& self.current_position.wf()
        &&& self.current_capital.wf()
    }

    /// The quota of a symbol that has not traded: 100 lots, 5000 of
    /// capital, 3 pending orders, 1000 trades a day, 60 seconds between
    /// trades.
    pub open spec fn fresh() -> RiskQuota {
        RiskQuota {
            max_position: Decimal { mantissa: 100, scale: 0 },
            max_capital: Decimal { mantissa: 5000, scale: 0 },
            max_pending_orders: 3,
            max_daily_trades: 1000,
            min_cooldown_seconds: 60,
            current_position: Decimal::zero_spec(),
            current_capital: Decimal::zero_spec(),
            pending_orders: 0,
            daily_trades: 0,
            last_trade_time: None,
        }
    }

    pub open spec fn can_trade_spec(self, quantity: Decimal, capital: Decimal) -> bool {
        &&& within(decimal_sum(self.current_position, quantity), self.max_position)
        &&& within(decimal_sum(self.current_capital, capital), self.max_capital)
        &&& self.pending_orders < self.max_pending_orders
        &&& self.daily_trades < self.max_daily_trades
    }

    pub open spec fn cooled_down(self, cooldown_seconds: i64, now: i64) -> bool {
        match self.last_trade_time {
            None => true,
            Some(t) => elapsed_seconds(now, t) >= cooldown_seconds,
        }
    }

    /// The quota of a symbol that has not traded.
    pub fn new() -> (r: RiskQuota)
        ensures
            r == RiskQuota::fresh(),
            r.wf(),
    {
        RiskQuota {
            max_position: Decimal::from_int(100),
            max_capital: Decimal::from_int(5000),
            max_pending_orders: 3,
            max_daily_trades: 1000,
            min_cooldown_seconds: 60,
            current_position: Decimal::zero(),
            current_capital: Decimal::zero(),
            pending_orders: 0,
            daily_trades: 0,
            last_trade_time: None,
        }
    }

    /// A further trade of `quantity` for `capital` stays within the
    /// limits: of position, of capital, of pending orders and of trades a
    /// day. A sum that cannot be computed counts as beyond the limit.
    pub fn can_trade(&self, quantity: Decimal, capital: Decimal) -> (r: bool)
        requires
            self.wf(),
            quantity.wf(),
            capital.wf(),
        ensures
            r == self.can_trade_spec(quantity, capital),
    {
        let position_ok = match checked_add(self.current_position, quantity) {
            Some(p) => p.at_most(&self.max_position),
            None => false,
        };
        let capital_ok = match checked_add(self.current_capital, capital) {
            Some(c) => c.at_most(&self.max_capital),
            None => false,
        };
        position_ok && capital_ok && self.pending_orders < self.max_pending_orders
            && self.daily_trades < self.max_daily_trades
    }

    /// The last trade lies at least `cooldown_seconds` back, or there was
    /// none.
    pub fn check_cooldown(&self, cooldown_seconds: i64, now: i64) -> (r: bool)
        ensures
            r == self.cooled_down(cooldown_seconds, now),
    {
        match self.last_trade_time {
            None => true,
            Some(t) => seconds_between(now, t) >= cooldown_seconds as i128,
        }
    }

    /// The quota with every limit at zero: nothing may trade.
    pub open spec fn closed(self) -> RiskQuota {
        RiskQuota {
            max_position: Decimal::zero_spec(),
            max_capital: Decimal::zero_spec(),
            max_pending_orders: 0,
            ..self
        }
    }

    /// The quota after a reported execution, where it can be computed:
    /// position and capital grow by what was executed, one more trade is
    /// counted and timed, and a report that ends the order (a fill, a
    /// cancellation, a rejection) ends a pending order.
    pub open spec fn after_report(self, report: ExecutionReport, now: i64) -> Option<RiskQuota> {
        match (
            decimal_sum(self.current_position, report.filled_quantity),
            decimal_product(report.price, report.filled_quantity),
        ) {
            (Some(position), Some(value)) => match decimal_sum(self.current_capital, value) {
                Some(capital) => Some(
                    RiskQuota {
                        current_position: position,
                        current_capital: capital,
                        daily_trades: if self.daily_trades < usize::MAX {
                            (self.daily_trades + 1) as usize
                        } else {
                            self.daily_trades
                        },
                        last_trade_time: Some(now),
                        pending_orders: if is_terminal_status(report.status)
                            && self.pending_orders > 0 {
                            (self.pending_orders - 1) as usize
                        } else {
                            self.pending_orders
                        },
                        ..self
                    },
                ),
                None => None,
            },
            _ => None,
        }
    }

    /// The quota after a reported execution, where it can be computed.
    pub fn updated(&self, report: &ExecutionReport, now: i64) -> (r: Option<RiskQuota>)
        requires
            self.wf(),
            report.wf(),
        ensures
            r == self.after_report(*report, now),
            r matches Some(q) ==> q.wf(),
    {
        let position = checked_add(self.current_position, report.filled_quantity);
        let value = checked_mul(report.price, report.filled_quantity);
        match (position, value) {
            (Some(position), Some(value)) => match checked_add(self.current_capital, value) {
                Some(capital) => Some(
                    RiskQuota {
                        current_position: position,
                        current_capital: capital,
                        daily_trades: if self.daily_trades < usize::MAX {
                            self.daily_trades + 1
                        } else {
                            self.daily_trades
                        },
                        last_trade_time: Some(now),
                        pending_orders: if ends_order(report.status) && self.pending_orders > 0 {
                            self.pending_orders - 1
                        } else {
                            self.pending_orders
                        },
                        max_position: self.max_position,
                        max_capital: self.max_capital,
                        max_pending_orders: self.max_pending_orders,
                        max_daily_trades: self.max_daily_trades,
                        min_cooldown_seconds: self.min_cooldown_seconds,
                    },
                ),
                None => None,
            },
            _ => None,
        }
    }
}

/// The figures of a position that enter the exposure: quantity and
/// average price.
pub struct Holding {
    pub quantity: Decimal,
    pub avg_price: Decimal,
}

/// The exposure of the first `upto` holdings: the sum of the absolute
/// values of quantity times average price, taken from the first on; none
/// where a product or a sum does not fit.
pub open spec fn exposure_upto(holdings: Seq<Holding>, upto: int) -> Option<Decimal>
    decreases upto,
{
    if upto <= 0 {
        Some(Decimal::zero_spec())
    } else {
        match (
            exposure_upto(holdings, upto - 1),
            decimal_product(holdings[upto - 1].quantity, holdings[upto - 1].avg_price),
        ) {
            (Some(sum), Some(value)) => decimal_sum(sum, value.abs_spec()),
            _ => None,
        }
    }
}

/// The holdings of a list of positions.
pub open spec fn holdings_of(positions: Seq<PositionInfo>) -> Seq<Holding> {
    Seq::new(
        positions.len(),
        |i: int| Holding { quantity: positions[i].quantity, avg_price: positions[i].avg_price },
    )
}

/// The total exposure of a list of positions.
pub open spec fn exposure_of(positions: Seq<PositionInfo>) -> Option<Decimal> {
    exposure_upto(holdings_of(positions), positions.len() as int)
}

impl PositionInfo {
    /// The figures are within the limits of their representation.
    pub open spec fn wf(self) -> bool {
        &&& self.quantity.wf()
        &&& self.avg_price.wf()
        &&& self.realized_pnl.wf()
        &&& self.unrealized_pnl.wf()
    }
}

/// The figures of a position after a trade.
pub struct Traded {
    pub quantity: Decimal,
    pub avg_price: Decimal,
    pub realized_pnl: Decimal,
}

/// What a reported execution does to the figures of a position, where
/// it can be computed. A buy adds to the quantity and moves the average
/// price towards the price paid; a sell takes from the quantity and
/// realizes the difference between the price and the average price.
pub open spec fn traded(
    quantity: Decimal,
    avg_price: Decimal,
    realized_pnl: Decimal,
    report: ExecutionReport,
) -> Option<Traded> {
    if report.side == Side::Buy {
        match decimal_sum(quantity, report.filled_quantity) {
            None => None,
            Some(total) => if total.mantissa != 0 {
                match (
                    decimal_product(avg_price, quantity),
                    decimal_product(report.price, report.filled_quantity),
                ) {
                    (Some(a), Some(b)) => match decimal_sum(a, b) {
                        Some(value) => match decimal_quotient(value, total) {
                            Some(average) => Some(
                                Traded { quantity: total, avg_price: average, realized_pnl },
                            ),
                            None => None,
                        },
                        None => None,
                    },
                    _ => None,
                }
            } else {
                Some(Traded { quantity: total, avg_price, realized_pnl })
            },
        }
    } else {
        match (
            decimal_difference(quantity, report.filled_quantity),
            decimal_difference(report.price, avg_price),
        ) {
            (Some(left), Some(gain)) => match decimal_product(gain, report.filled_quantity) {
                Some(pnl) => match decimal_sum(realized_pnl, pnl) {
                    Some(realized) => Some(
                        Traded { quantity: left, avg_price, realized_pnl: realized },
                    ),
                    None => None,
                },
                None => None,
            },
            _ => None,
        }
    }
}

/// What a reported execution does to the figures of a position.
pub fn trade(quantity: Decimal, avg_price: Decimal, realized_pnl: Decimal, report: &ExecutionReport) -> (r:
    Option<Traded>)
    requires
        quantity.wf(),
        avg_price.wf(),
        realized_pnl.wf(),
        report.wf(),
    ensures
        r == traded(quantity, avg_price, realized_pnl, *report),
        r matches Some(t) ==> t.quantity.wf() && t.avg_price.wf() && t.realized_pnl.wf(),
{
    if report.side == Side::Buy {
        let total = match checked_add(quantity, report.filled_quantity) {
            Some(t) => t,
            None => {
                return None;
            },
        };
        if !total.is_zero() {
            let a = checked_mul(avg_price, quantity);
            let b = checked_mul(report.price, report.filled_quantity);
            match (a, b) {
                (Some(a), Some(b)) => match checked_add(a, b) {
                    Some(value) => match checked_div(value, total) {
                        Some(average) => Some(
                            Traded { quantity: total, avg_price: average, realized_pnl },
                        ),
                        None => None,
                    },
                    None => None,
                },
                _ => None,
            }
        } else {
            Some(Traded { quantity: total, avg_price, realized_pnl })
        }
    } else {
        let left = checked_sub(quantity, report.filled_quantity);
        let gain = checked_sub(report.price, avg_price);
        match (left, gain) {
            (Some(left), Some(gain)) => match checked_mul(gain, report.filled_quantity) {
                Some(pnl) => match checked_add(realized_pnl, pnl) {
                    Some(realized) => Some(Traded { quantity: left, avg_price, realized_pnl: realized }),
                    None => None,
                },
                None => None,
            },
            _ => None,
        }
    }
}

/// Positions, quotas and exposure, shared by the two pipelines.
pub struct SharedState {
    pub positions: Table<PositionInfo>,
    pub risk_quotas: Table<RiskQuota>,
    pub total_exposure: Decimal,
    pub max_total_exposure: Decimal,
    pub warning_threshold: Decimal,
    /// The largest position of one symbol, in lots.
    pub position_cap: Decimal,
    /// The position from which a symbol needs a hedge, by symbol.
    pub hedge_thresholds: Table<Decimal>,
    /// When the state was last handed to the snapshot sink, in
    /// milliseconds since the Unix epoch.
    pub last_persist_time: i64,
}

/// The longest time between two snapshots, in milliseconds.
pub const PERSIST_INTERVAL_MS: i64 = 60_000;

impl SharedState {
    /// The tables are well-formed, every position stands under its own
    /// symbol, and every figure is within the limits of its
    /// representation.
    pub open spec fn wf(self) -> bool {
        &&& self.positions.wf()
        &&& self.risk_quotas.wf()
        &&& self.hedge_thresholds.wf()
        &&& self.total_exposure.wf()
        &&& self.max_total_exposure.wf()
        &&& self.warning_threshold.wf()
        &&& self.position_cap.wf()
        &&& forall|i: int|
            0 <= i < self.positions.values@.len() ==> (#[trigger] self.positions.values@[i]).wf()
                && self.positions.values@[i].symbol@ == self.positions.keys@[i]@
        &&& forall|i: int|
            0 <= i < self.risk_quotas.values@.len() ==> (#[trigger] self.risk_quotas.values@[i]).wf()
        &&& forall|i: int|
            0 <= i < self.hedge_thresholds.values@.len() ==> (
            #[trigger] self.hedge_thresholds.values@[i]).wf()
    }

    /// The quota of a symbol: its own, or that of a symbol that has not
    /// traded.
    pub open spec fn quota_of(self, symbol: Seq<char>) -> RiskQuota {
        match self.risk_quotas.get(symbol) {
            Some(q) => q,
            None => RiskQuota::fresh(),
        }
    }

    /// The quantity held of a symbol; zero where there is no position.
    pub open spec fn held(self, symbol: Seq<char>) -> Decimal {
        match self.positions.get(symbol) {
            Some(p) => p.quantity,
            None => Decimal::zero_spec(),
        }
    }

    /// The total exposure is the sum over the positions of the absolute
    /// value of quantity times average price.
    pub open spec fn exposure_matches(self) -> bool {
        exposure_of(self.positions.values@) == Some(self.total_exposure)
    }

    /// A state without positions: exposure zero, exposure limit 0.03 with
    /// a warning from 0.025, position cap 100 lots.
    pub fn new(now: i64) -> (r: SharedState)
        ensures
            r.wf(),
            forall|k: Seq<char>| #[trigger] r.positions.get(k) is None,
            forall|k: Seq<char>| #[trigger] r.risk_quotas.get(k) is None,
            forall|k: Seq<char>| #[trigger] r.hedge_thresholds.get(k) is None,
            r.total_exposure == Decimal::zero_spec(),
            r.exposure_matches(),
            r.max_total_exposure == (Decimal { mantissa: 3, scale: 2 }),
            r.warning_threshold == (Decimal { mantissa: 25, scale: 3 }),
            r.position_cap == (Decimal { mantissa: 100, scale: 0 }),
            r.last_persist_time == now,
    {
        SharedState {
            positions: Table::new(),
            risk_quotas: Table::new(),
            total_exposure: Decimal::zero(),
            max_total_exposure: Decimal { mantissa: 3, scale: 2 },
            warning_threshold: Decimal { mantissa: 25, scale: 3 },
            position_cap: Decimal::from_int(100),
            hedge_thresholds: Table::new(),
            last_persist_time: now,
        }
    }

    /// What the quick risk check says of a signal: the quota of its symbol
    /// admits the trade, the symbol has cooled down, and the total
    /// exposure is below its limit.
    pub open spec fn risk_check_spec(self, signal: Signal, now: i64) -> bool {
        let quota = self.quota_of(signal.symbol@);
        let quantity = match signal.quantity {
            Some(q) => q,
            None => Decimal::zero_spec(),
        };
        let notional = match signal.notional_spec() {
            Some(n) => n,
            None => Decimal::zero_spec(),
        };
        &&& quota.can_trade_spec(quantity, notional)
        &&& quota.cooled_down(quota.min_cooldown_seconds, now)
        &&& self.total_exposure.lt_spec(self.max_total_exposure)
    }

    /// The quick risk check of a signal.
    pub fn risk_check(&self, signal: &Signal, now: i64) -> (r: bool)
        requires
            self.wf(),
            signal.wf(),
        ensures
            r == self.risk_check_spec(*signal, now),
    {
        let fresh = RiskQuota::new();
        let quota = match self.risk_quotas.find(signal.symbol.as_str()) {
            Some(i) => &self.risk_quotas.values[i],
            None => &fresh,
        };
        let quantity = match signal.quantity {
            Some(q) => q,
            None => Decimal::zero(),
        };
        let notional = match signal.notional() {
            Some(n) => n,
            None => Decimal::zero(),
        };
        if !quota.can_trade(quantity, notional) {
            return false;
        }
        if !quota.check_cooldown(quota.min_cooldown_seconds, now) {
            return false;
        }
        self.total_exposure.less_than(&self.max_total_exposure)
    }

    /// The position of the symbol would stay within the cap after a
    /// further `quantity`, long or short.
    pub open spec fn position_check_spec(self, symbol: Seq<char>, quantity: Decimal) -> bool {
        match decimal_sum(self.held(symbol), quantity) {
            Some(total) => total.abs_spec().le_spec(self.position_cap),
            None => false,
        }
    }

    /// The position of the symbol would stay within the cap after a
    /// further `quantity`. A sum that cannot be computed counts as beyond
    /// the cap.
    pub fn position_check(&self, symbol: &str, quantity: Decimal) -> (r: bool)
        requires
            self.wf(),
            quantity.wf(),
        ensures
            r == self.position_check_spec(symbol@, quantity),
    {
        let held = match self.positions.find(symbol) {
            Some(i) => self.positions.values[i].quantity,
            None => Decimal::zero(),
        };
        match checked_add(held, quantity) {
            Some(total) => total.abs().at_most(&self.position_cap),
            None => false,
        }
    }

    /// The exposure of the positions, with the figures of the position at
    /// `at` replaced by `figures`, or with `figures` as one more position
    /// where `at` is none.
    fn exposure_with(&self, at: Option<usize>, figures: &Traded) -> (r: Option<Decimal>)
        requires
            self.wf(),
            figures.quantity.wf(),
            figures.avg_price.wf(),
            at matches Some(i) ==> i < self.positions.values@.len(),
        ensures
            r == exposure_upto(
                changed_holdings(self.positions.values@, at, *figures),
                changed_holdings(self.positions.values@, at, *figures).len() as int,
            ),
            r matches Some(d) ==> d.wf(),
    {
        let ghost target = changed_holdings(self.positions.values@, at, *figures);
        let mut sum = Decimal::zero();
        let mut i: usize = 0;
        let n = self.positions.values.len();
        while i < n
            invariant
                i <= n,
                n == self.positions.values@.len(),
                self.wf(),
                sum.wf(),
                figures.quantity.wf(),
                figures.avg_price.wf(),
                at matches Some(j) ==> j < n,
                target == changed_holdings(self.positions.values@, at, *figures),
                exposure_upto(target, i as int) == Some(sum),
            decreases n - i,
        {
            let (quantity, avg_price) = match at {
                Some(j) if j == i => (figures.quantity, figures.avg_price),
                _ => (self.positions.values[i].quantity, self.positions.values[i].avg_price),
            };
            proof {
                assert(self.positions.values@[i as int].wf());
                assert(target[i as int] == Holding { quantity, avg_price });
            }
            let value = match checked_mul(quantity, avg_price) {
                Some(v) => v,
                None => {
                    proof {
                        lemma_exposure_fails_on(target, i as int + 1, target.len() as int);
                    }
                    return None;
                },
            };
            sum = match checked_add(sum, value.abs()) {
                Some(s) => s,
                None => {
                    proof {
                        lemma_exposure_fails_on(target, i as int + 1, target.len() as int);
                    }
                    return None;
                },
            };
            i += 1;
        }
        match at {
            Some(_) => Some(sum),
            None => {
                proof {
                    assert(target[n as int] == Holding {
                        quantity: figures.quantity,
                        avg_price: figures.avg_price,
                    });
                }
                match checked_mul(figures.quantity, figures.avg_price) {
                    Some(v) => checked_add(sum, v.abs()),
                    None => None,
                }
            },
        }
    }

    /// Takes a reported execution into the position of its symbol, and
    /// computes the total exposure anew as the sum of the absolute values
    /// of quantity times average price over all positions.
    pub fn update_position(&mut self, report: &ExecutionReport, now: i64) -> (r: Result<(), RiskError>)
        requires
            old(self).wf(),
            report.wf(),
        ensures
            final(self).wf(),
            position_updated(*old(self), *final(self), *report, now, r),
            r is Ok ==> exposure_of(final(self).positions.values@) == Some(final(self).total_exposure),
    {
        let key = symbol_key(report.symbol);
        let at = self.positions.find(key.as_str());
        let (quantity, avg_price, realized_pnl) = match at {
            Some(i) => {
                proof {
                    assert(self.positions.values@[i as int].wf());
                }
                (
                    self.positions.values[i].quantity,
                    self.positions.values[i].avg_price,
                    self.positions.values[i].realized_pnl,
                )
            },
            None => (Decimal::zero(), Decimal::zero(), Decimal::zero()),
        };
        let figures = match trade(quantity, avg_price, realized_pnl, report) {
            Some(f) => f,
            None => {
                return Err(RiskError::Arithmetic);
            },
        };
        let exposure = match self.exposure_with(at, &figures) {
            Some(e) => e,
            None => {
                return Err(RiskError::Arithmetic);
            },
        };
        match at {
            Some(i) => {
                self.positions.values[i].quantity = figures.quantity;
                self.positions.values[i].avg_price = figures.avg_price;
                self.positions.values[i].realized_pnl = figures.realized_pnl;
                self.positions.values[i].last_update = now;
                proof {
                    old(self).positions.lemma_edited(self.positions, i as int);
                    assert forall|j: int| 0 <= j < self.positions.values@.len() implies (
                    #[trigger] self.positions.values@[j]).wf() && self.positions.values@[j].symbol@
                        == self.positions.keys@[j]@ by {
                        if j != i {
                            assert(self.positions.values@[j] == old(self).positions.values@[j]);
                        } else {
                            assert(old(self).positions.values@[j].wf());
                        }
                    }
                    assert(holdings_of(self.positions.values@) =~= changed_holdings(
                        old(self).positions.values@,
                        at,
                        figures,
                    ));
                }
            },
            None => {
                let position = PositionInfo {
                    symbol: key.clone(),
                    quantity: figures.quantity,
                    avg_price: figures.avg_price,
                    realized_pnl: figures.realized_pnl,
                    unrealized_pnl: Decimal::zero(),
                    last_update: now,
                };
                self.positions.push_new(key, position);
                proof {
                    assert forall|j: int| 0 <= j < self.positions.values@.len() implies (
                    #[trigger] self.positions.values@[j]).wf() && self.positions.values@[j].symbol@
                        == self.positions.keys@[j]@ by {
                        if j < old(self).positions.values@.len() {
                            assert(self.positions.values@[j] == old(self).positions.values@[j]);
                        }
                    }
                    assert(holdings_of(self.positions.values@) =~= changed_holdings(
                        old(self).positions.values@,
                        at,
                        figures,
                    ));
                }
            },
        }
        self.total_exposure = exposure;
        Ok(())
    }

    /// Takes a reported execution into the quota of its symbol.
    pub fn update_risk_quota(&mut self, report: &ExecutionReport, now: i64) -> (r: Result<(), RiskError>)
        requires
            old(self).wf(),
            report.wf(),
        ensures
            final(self).wf(),
            quota_taken(*old(self), *final(self), *report, now, r),
    {
        let key = symbol_key(report.symbol);
        let at = self.risk_quotas.find(key.as_str());
        let quota = match at {
            Some(i) => {
                proof {
                    assert(self.risk_quotas.values@[i as int].wf());
                }
                self.risk_quotas.values[i]
            },
            None => RiskQuota::new(),
        };
        let updated = match quota.updated(report, now) {
            Some(q) => q,
            None => {
                return Err(RiskError::Arithmetic);
            },
        };
        self.store_quota(key, updated);
        Ok(())
    }

    /// Puts a quota under its symbol.
    fn store_quota(&mut self, key: String, quota: RiskQuota)
        requires
            old(self).wf(),
            quota.wf(),
        ensures
            final(self).wf(),
            *final(self) == (SharedState { risk_quotas: final(self).risk_quotas, ..*old(self) }),
            final(self).risk_quotas.get(key@) == Some(quota),
            forall|k: Seq<char>|
                k != key@ ==> #[trigger] final(self).risk_quotas.get(k) == old(self).risk_quotas.get(k),
    {
        self.risk_quotas.upsert(key, quota);
        proof {
            assert forall|i: int| 0 <= i < self.risk_quotas.values@.len() implies (
            #[trigger] self.risk_quotas.values@[i]).wf() by {
                self.risk_quotas.lemma_entry(i);
                let k = self.risk_quotas.keys@[i]@;
                if k != key@ {
                    old(self).risk_quotas.lemma_slot(k);
                    assert(old(self).risk_quotas.values@[old(self).risk_quotas.slot(k)].wf());
                }
            }
        }
    }

    /// The position of the symbol has reached the size from which it needs
    /// a hedge; never where the symbol has no position or no threshold.
    pub open spec fn should_trigger_hedge_spec(self, symbol: Seq<char>) -> bool {
        match (self.positions.get(symbol), self.hedge_thresholds.get(symbol)) {
            (Some(p), Some(t)) => t.le_spec(p.quantity.abs_spec()),
            _ => false,
        }
    }

    /// The position of the symbol has reached the size from which it needs
    /// a hedge.
    pub fn should_trigger_hedge(&self, symbol: &str) -> (r: bool)
        requires
            self.wf(),
        ensures
            r == self.should_trigger_hedge_spec(symbol@),
    {
        match (self.positions.find(symbol), self.hedge_thresholds.find(symbol)) {
            (Some(i), Some(j)) => {
                proof {
                    assert(self.positions.values@[i as int].wf());
                    assert(self.hedge_thresholds.values@[j as int].wf());
                }
                self.positions.values[i].quantity.abs().at_least(&self.hedge_thresholds.values[j])
            },
            _ => false,
        }
    }

    /// The unrealized profit of a position at a market price: the
    /// difference between the price and the average price, times the
    /// quantity.
    pub open spec fn unrealized(position: PositionInfo, market_price: Decimal) -> Option<Decimal> {
        match decimal_difference(market_price, position.avg_price) {
            Some(d) => decimal_product(d, position.quantity),
            None => None,
        }
    }

    /// Values the position of the reported symbol at the reported price.
    /// Nothing changes where the symbol has no position.
    pub fn calculate_pnl(&mut self, report: &ExecutionReport) -> (r: Result<(), RiskError>)
        requires
            old(self).wf(),
            report.wf(),
        ensures
            final(self).wf(),
            position_valued(*old(self), *final(self), *report, r),
    {
        let key = symbol_key(report.symbol);
        let i = match self.positions.find(key.as_str()) {
            Some(i) => i,
            None => {
                return Ok(());
            },
        };
        proof {
            assert(self.positions.values@[i as int].wf());
        }
        let gain = match checked_sub(report.price, self.positions.values[i].avg_price) {
            Some(g) => g,
            None => {
                return Err(RiskError::Arithmetic);
            },
        };
        let unrealized = match checked_mul(gain, self.positions.values[i].quantity) {
            Some(u) => u,
            None => {
                return Err(RiskError::Arithmetic);
            },
        };
        self.positions.values[i].unrealized_pnl = unrealized;
        proof {
            assert(holdings_of(self.positions.values@) =~= holdings_of(old(self).positions.values@));
            old(self).positions.lemma_edited(self.positions, i as int);
            assert forall|j: int| 0 <= j < self.positions.values@.len() implies (
            #[trigger] self.positions.values@[j]).wf() && self.positions.values@[j].symbol@
                == self.positions.keys@[j]@ by {
                if j != i {
                    assert(self.positions.values@[j] == old(self).positions.values@[j]);
                } else {
                    assert(old(self).positions.values@[j].wf());
                }
            }
        }
        Ok(())
    }

    /// Says whether a snapshot of the state is due, which it is once more
    /// than a minute has passed since the last one, and notes the time of
    /// a snapshot that is due.
    pub fn persist(&mut self, now: i64) -> (r: bool)
        ensures
            r == (now - old(self).last_persist_time > PERSIST_INTERVAL_MS),
            *final(self) == (SharedState {
                last_persist_time: if r {
                    now
                } else {
                    old(self).last_persist_time
                },
                ..*old(self)
            }),
    {
        let due = now as i128 - self.last_persist_time as i128 > PERSIST_INTERVAL_MS as i128;
        if due {
            self.last_persist_time = now;
        }
        due
    }

    /// Takes over what the risk state reports: the total exposure, and the
    /// closing of the quotas of restricted symbols, or of all quotas where
    /// trading is restricted as a whole.
    pub fn update_risk_state(&mut self, summary: &RiskSummary)
        requires
            old(self).wf(),
            summary.total_exposure.wf(),
        ensures
            final(self).wf(),
            final(self).positions == old(self).positions,
            final(self).hedge_thresholds == old(self).hedge_thresholds,
            final(self).total_exposure == summary.total_exposure,
            final(self).risk_quotas.keys@ == old(self).risk_quotas.keys@,
            forall|i: int|
                0 <= i < final(self).risk_quotas.values@.len() ==> #[trigger] final(self).risk_quotas.values@[i] == if summary.global_restricted
                    || crate::common::idlist::listed(
                    summary.restricted_symbols@,
                    old(self).risk_quotas.keys@[i]@,
                ) {
                    old(self).risk_quotas.values@[i].closed()
                } else {
                    old(self).risk_quotas.values@[i]
                },
    {
        self.total_exposure = summary.total_exposure;
        let mut i: usize = 0;
        let n = self.risk_quotas.values.len();
        while i < n
            invariant
                i <= n,
                n == self.risk_quotas.values@.len(),
                n == old(self).risk_quotas.values@.len(),
                old(self).wf(),
                self.risk_quotas.keys@ == old(self).risk_quotas.keys@,
                self.positions == old(self).positions,
                self.hedge_thresholds == old(self).hedge_thresholds,
                self.total_exposure == summary.total_exposure,
                self.max_total_exposure == old(self).max_total_exposure,
                self.warning_threshold == old(self).warning_threshold,
                self.position_cap == old(self).position_cap,
                forall|j: int|
                    0 <= j < i ==> #[trigger] self.risk_quotas.values@[j] == if summary.global_restricted
                        || crate::common::idlist::listed(
                        summary.restricted_symbols@,
                        old(self).risk_quotas.keys@[j]@,
                    ) {
                        old(self).risk_quotas.values@[j].closed()
                    } else {
                        old(self).risk_quotas.values@[j]
                    },
                forall|j: int|
                    i <= j < n ==> #[trigger] self.risk_quotas.values@[j] == old(self).risk_quotas.values@[j],
            decreases n - i,
        {
            let restricted = summary.global_restricted || crate::common::idlist::contains_id(
                &summary.restricted_symbols,
                self.risk_quotas.keys[i].as_str(),
            );
            if restricted {
                self.risk_quotas.values[i].max_position = Decimal::zero();
                self.risk_quotas.values[i].max_capital = Decimal::zero();
                self.risk_quotas.values[i].max_pending_orders = 0;
            }
            i += 1;
        }
        proof {
            assert forall|j: int| 0 <= j < self.risk_quotas.values@.len() implies (
            #[trigger] self.risk_quotas.values@[j]).wf() by {
                assert(old(self).risk_quotas.values@[j].wf());
            }
        }
    }
}

/// The holdings of the positions, with those of the position at `at`
/// replaced by `figures`, or with `figures` as one more holding where
/// `at` is none.
pub open spec fn changed_holdings(positions: Seq<PositionInfo>, at: Option<usize>, figures: Traded) -> Seq<
    Holding,
> {
    let holding = Holding { quantity: figures.quantity, avg_price: figures.avg_price };
    match at {
        Some(i) => holdings_of(positions).update(i as int, holding),
        None => holdings_of(positions).push(holding),
    }
}

/// Once the exposure of some holdings cannot be computed, neither can that
/// of more of them.
pub proof fn lemma_exposure_fails_on(holdings: Seq<Holding>, lower: int, upper: int)
    requires
        lower <= upper,
        exposure_upto(holdings, lower) is None,
    ensures
        exposure_upto(holdings, upper) is None,
    decreases upper - lower,
{
    if lower < upper {
        lemma_exposure_fails_on(holdings, lower, upper - 1);
    }
}

/// What taking a reported execution into the positions does. Where the
/// new figures or the new exposure cannot be computed, nothing changes.
/// Else the position of the symbol has the new figures and the time of
/// the update, all other positions are as they were, and the total
/// exposure is that of the positions as they now are.
pub open spec fn position_updated(
    before: SharedState,
    after: SharedState,
    report: ExecutionReport,
    now: i64,
    r: Result<(), RiskError>,
) -> bool {
    let key = symbol_text(report.symbol);
    let at = if before.positions.has(key) {
        Some(before.positions.slot(key) as usize)
    } else {
        None
    };
    let figures = match before.positions.get(key) {
        Some(p) => traded(p.quantity, p.avg_price, p.realized_pnl, report),
        None => traded(Decimal::zero_spec(), Decimal::zero_spec(), Decimal::zero_spec(), report),
    };
    match figures {
        None => r == Err::<(), RiskError>(RiskError::Arithmetic) && after == before,
        Some(f) => {
            let holdings = changed_holdings(before.positions.values@, at, f);
            match exposure_upto(holdings, holdings.len() as int) {
                None => r == Err::<(), RiskError>(RiskError::Arithmetic) && after == before,
                Some(exposure) => {
                    &&& r == Ok::<(), RiskError>(())
                    &&& after.total_exposure == exposure
                    &&& holdings_of(after.positions.values@) == holdings
                    &&& after.positions.get(key) matches Some(p) && p.symbol@ == key && p.quantity
                        == f.quantity && p.avg_price == f.avg_price && p.realized_pnl
                        == f.realized_pnl && p.last_update == now && p.unrealized_pnl == (
                    match before.positions.get(key) {
                        Some(q) => q.unrealized_pnl,
                        None => Decimal::zero_spec(),
                    })
                    &&& forall|k: Seq<char>|
                        k != key ==> #[trigger] after.positions.get(k) == before.positions.get(k)
                    &&& after.risk_quotas == before.risk_quotas
                    &&& after.hedge_thresholds == before.hedge_thresholds
                    &&& after.max_total_exposure == before.max_total_exposure
                    &&& after.warning_threshold == before.warning_threshold
                    &&& after.position_cap == before.position_cap
                    &&& after.last_persist_time == before.last_persist_time
                },
            }
        },
    }
}

/// What taking a reported execution into the quota of its symbol does.
/// Where the new quota cannot be computed, nothing changes. Else the
/// symbol has the new quota, and everything else is as it was.
pub open spec fn quota_taken(
    before: SharedState,
    after: SharedState,
    report: ExecutionReport,
    now: i64,
    r: Result<(), RiskError>,
) -> bool {
    let key = symbol_text(report.symbol);
    match before.quota_of(key).after_report(report, now) {
        None => r == Err::<(), RiskError>(RiskError::Arithmetic) && after == before,
        Some(q) => {
            &&& r == Ok::<(), RiskError>(())
            &&& after == (SharedState { risk_quotas: after.risk_quotas, ..before })
            &&& after.risk_quotas.get(key) == Some(q)
            &&& forall|k: Seq<char>|
                k != key ==> #[trigger] after.risk_quotas.get(k) == before.risk_quotas.get(k)
        },
    }
}

/// What valuing the position of the reported symbol at the reported price
/// does. Where there is no such position, or its value cannot be
/// computed, nothing changes. Else the position has the new unrealized
/// profit, and everything else is as it was.
pub open spec fn position_valued(
    before: SharedState,
    after: SharedState,
    report: ExecutionReport,
    r: Result<(), RiskError>,
) -> bool {
    let key = symbol_text(report.symbol);
    &&& after == (SharedState { positions: after.positions, ..before })
    &&& holdings_of(after.positions.values@) == holdings_of(before.positions.values@)
    &&& forall|k: Seq<char>| k != key ==> #[trigger] after.positions.get(k) == before.positions.get(k)
    &&& match before.positions.get(key) {
        None => r == Ok::<(), RiskError>(()) && after == before,
        Some(p) => match SharedState::unrealized(p, report.price) {
            Some(u) => r == Ok::<(), RiskError>(()) && after.positions.get(key) == Some(
                PositionInfo { unrealized_pnl: u, ..p },
            ),
            None => r == Err::<(), RiskError>(RiskError::Arithmetic) && after == before,
        },
    }
}

/// The states that a run of reports leads through: each state but the
/// first is what taking the report of its place into the positions of
/// the state before made, at some time and with some outcome.
pub open spec fn is_run(states: Seq<SharedState>, reports: Seq<ExecutionReport>) -> bool {
    &&& states.len() == reports.len() + 1
    &&& forall|i: int| 0 <= i < reports.len() ==> #[trigger] taken_at(states, reports, i)
}

/// The state after report `i` of a run is what taking the report into the
/// positions of the state before it made.
pub open spec fn taken_at(states: Seq<SharedState>, reports: Seq<ExecutionReport>, i: int) -> bool {
    exists|now: i64, r: Result<(), RiskError>|
        #[trigger] position_updated(states[i], states[i + 1], reports[i], now, r)
}

/// A report that is taken into the positions leaves the total exposure as
/// the sum over the positions, and one that cannot be taken leaves it as
/// it was.
pub proof fn lemma_exposure_after_report(
    before: SharedState,
    after: SharedState,
    report: ExecutionReport,
    now: i64,
    r: Result<(), RiskError>,
)
    requires
        position_updated(before, after, report, now, r),
    ensures
        r is Ok ==> after.exposure_matches(),
        r is Err ==> after == before,
        before.exposure_matches() ==> after.exposure_matches(),
{
    if r is Ok {
        assert(holdings_of(after.positions.values@).len() == after.positions.values@.len());
    }
}

/// After any run of reports, the total exposure is the sum over the
/// positions of the absolute value of quantity times average price, if
/// it was so at the start, as it is in a state without positions.
pub proof fn lemma_exposure_after_reports(states: Seq<SharedState>, reports: Seq<ExecutionReport>, upto: int)
    requires
        is_run(states, reports),
        states[0].exposure_matches(),
        0 <= upto <= reports.len(),
    ensures
        states[upto].exposure_matches(),
    decreases upto,
{
    if upto > 0 {
        lemma_exposure_after_reports(states, reports, upto - 1);
        assert(taken_at(states, reports, upto - 1));
        let (now, r) = choose|now: i64, r: Result<(), RiskError>|
            #[trigger] position_updated(states[upto - 1], states[upto - 1 + 1], reports[upto - 1], now, r);
        lemma_exposure_after_report(states[upto - 1], states[upto], reports[upto - 1], now, r);
    }
}

} // verus!
