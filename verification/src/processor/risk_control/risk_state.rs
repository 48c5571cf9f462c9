//! The risk state: per symbol and as a whole, as signals and execution
//! reports shape it.

use vstd::prelude::*;
use vstd::string::*;
use crate::common::decimal::{
    checked_add, checked_mul, checked_sub, decimal_difference, decimal_product, decimal_sum,
    Decimal,
};
use crate::common::table::Table;
use crate::common::types::{ExecutionReport, OrderStatus, RiskLevel, Side, Signal};
use crate::processor::order::arbitrage::{bump, bump_spec, drop_one, drop_spec, grow, grown};
use crate::processor::order::order_manager::{symbol_key, symbol_text};
use crate::processor::pipeline::shared_state::{ends_order, is_terminal_status, RiskError, RiskSummary};
use crate::processor::risk_control::risk_rules::{notional_of, notional_or_zero};

verus! {

/// The measures of risk that are derived from the history of profits and
/// exposures.
#[derive(Debug, Clone, Copy, PartialEq, Eq, Structural)]
pub struct RiskMetrics {
    pub total_pnl: Decimal,
    pub daily_pnl: Decimal,
    pub win_rate: Decimal,
    pub profit_factor: Decimal,
    pub max_drawdown: Decimal,
    /// In seconds.
    pub max_drawdown_duration: i64,
    pub sharpe_ratio: Decimal,
    pub sortino_ratio: Decimal,
    pub avg_exposure: Decimal,
    pub max_exposure: Decimal,
    pub current_exposure: Decimal,
    pub exposure_utilization: Decimal,
    pub var_95: Decimal,
    pub var_99: Decimal,
    pub cvar_95: Decimal,
    /// Milliseconds since the Unix epoch.
    pub calculated_at: i64,
}

impl RiskMetrics {
    /// Every measure at zero.
    pub open spec fn zero(now: i64) -> RiskMetrics {
        let z = Decimal::zero_spec();
        RiskMetrics {
            total_pnl: z,
            daily_pnl: z,
            win_rate: z,
            profit_factor: z,
            max_drawdown: z,
            max_drawdown_duration: 0,
            sharpe_ratio: z,
            sortino_ratio: z,
            avg_exposure: z,
            max_exposure: z,
            current_exposure: z,
            exposure_utilization: z,
            var_95: z,
            var_99: z,
            cvar_95: z,
            calculated_at: now,
        }
    }

    /// Every measure at zero.
    pub fn new(now: i64) -> (r: RiskMetrics)
        ensures
            r == RiskMetrics::zero(now),
    {
        let z = Decimal::zero();
        RiskMetrics {
            total_pnl: z,
            daily_pnl: z,
            win_rate: z,
            profit_factor: z,
            max_drawdown: z,
            max_drawdown_duration: 0,
            sharpe_ratio: z,
            sortino_ratio: z,
            avg_exposure: z,
            max_exposure: z,
            current_exposure: z,
            exposure_utilization: z,
            var_95: z,
            var_99: z,
            cvar_95: z,
            calculated_at: now,
        }
    }

    /// Starts a new day: the profit of the day is zero again.
    pub fn reset_daily_metrics(&mut self)
        ensures
            *final(self) == (RiskMetrics { daily_pnl: Decimal::zero_spec(), ..*old(self) }),
    {
        self.daily_pnl = Decimal::zero();
    }
}

/// The risk state of one symbol.
#[derive(Debug)]
pub struct SymbolRiskState {
    pub symbol: String,
    pub position: Decimal,
    pub capital_used: Decimal,
    pub pending_orders: usize,
    pub daily_trades: usize,
    /// Milliseconds since the Unix epoch.
    pub last_trade_time: Option<i64>,
    pub trades_in_window: usize,
    pub realized_pnl: Decimal,
    pub unrealized_pnl: Decimal,
    pub max_drawdown: Decimal,
    pub is_restricted: bool,
    pub restriction_reason: Option<String>,
    /// Milliseconds since the Unix epoch.
    pub restriction_until: Option<i64>,
}

impl SymbolRiskState {
    /// The figures are within the limits of their representation.
    pub open spec fn wf(self) -> bool {
        &&& self.position.wf()
        &&& self.capital_used.wf()
        &&& self.realized_pnl.wf()
        &&& self.unrealized_pnl.wf()
        &&& self.max_drawdown.wf()
    }

    /// The symbol has not traded and is not restricted.
    pub open spec fn is_fresh(self, symbol: Seq<char>) -> bool {
        &&& self.symbol@ == symbol
        &&& self.position == Decimal::zero_spec()
        &&& self.capital_used == Decimal::zero_spec()
        &&& self.pending_orders == 0
        &&& self.daily_trades == 0
        &&& self.last_trade_time is None
        &&& self.trades_in_window == 0
        &&& self.realized_pnl == Decimal::zero_spec()
        &&& self.unrealized_pnl == Decimal::zero_spec()
        &&& self.max_drawdown == Decimal::zero_spec()
        &&& !self.is_restricted
        &&& self.restriction_reason is None
        &&& self.restriction_until is None
    }

    pub open spec fn can_trade_spec(self, now: i64) -> bool {
        if self.is_restricted {
            match self.restriction_until {
                Some(until) => now >= until,
                None => false,
            }
        } else {
            true
        }
    }

    /// The state of a symbol that has not traded.
    pub fn new(symbol: String) -> (r: SymbolRiskState)
        ensures
            r.is_fresh(symbol@),
            r.symbol == symbol,
            r.wf(),
    {
        SymbolRiskState {
            symbol,
            position: Decimal::zero(),
            capital_used: Decimal::zero(),
            pending_orders: 0,
            daily_trades: 0,
            last_trade_time: None,
            trades_in_window: 0,
            realized_pnl: Decimal::zero(),
            unrealized_pnl: Decimal::zero(),
            max_drawdown: Decimal::zero(),
            is_restricted: false,
            restriction_reason: None,
            restriction_until: None,
        }
    }

    /// The symbol may trade: it is not restricted, or its restriction has
    /// run out. A restriction without an end never runs out.
    pub fn can_trade(&self, now: i64) -> (r: bool)
        ensures
            r == self.can_trade_spec(now),
    {
        if self.is_restricted {
            match self.restriction_until {
                Some(until) => now >= until,
                None => false,
            }
        } else {
            true
        }
    }

    /// Counts one more trade, at `now`.
    pub fn update_trade_stats(&mut self, now: i64)
        ensures
            *final(self) == (SymbolRiskState {
                daily_trades: bump_spec(old(self).daily_trades),
                trades_in_window: bump_spec(old(self).trades_in_window),
                last_trade_time: Some(now),
                ..*old(self)
            }),
    {
        self.daily_trades = bump(self.daily_trades);
        self.trades_in_window = bump(self.trades_in_window);
        self.last_trade_time = Some(now);
    }

    /// Restricts the symbol for `duration_seconds` from `now`; for ever
    /// where the end would lie beyond the largest time.
    pub fn set_restriction(&mut self, reason: String, duration_seconds: i64, now: i64)
        ensures
            *final(self) == (SymbolRiskState {
                is_restricted: true,
                restriction_reason: Some(reason),
                restriction_until: restriction_end(now, duration_seconds),
                ..*old(self)
            }),
    {
        self.is_restricted = true;
        self.restriction_reason = Some(reason);
        let until: i128 = now as i128 + (duration_seconds as i128) * 1000;
        self.restriction_until = if until > i64::MAX as i128 {
            None
        } else if until < i64::MIN as i128 {
            Some(i64::MIN)
        } else {
            Some(until as i64)
        };
    }

    /// Lifts the restriction.
    pub fn clear_restriction(&mut self)
        ensures
            *final(self) == (SymbolRiskState {
                is_restricted: false,
                restriction_reason: None,
                restriction_until: None,
                ..*old(self)
            }),
    {
        self.is_restricted = false;
        self.restriction_reason = None;
        self.restriction_until = None;
    }

    /// Starts a new day: no trades yet.
    pub fn reset_daily_stats(&mut self)
        ensures
            *final(self) == (SymbolRiskState { daily_trades: 0, trades_in_window: 0, ..*old(self) }),
    {
        self.daily_trades = 0;
        self.trades_in_window = 0;
    }
}

/// The time at which a restriction of `duration_seconds` from `now` ends;
/// none where it lies beyond the largest time.
pub open spec fn restriction_end(now: i64, duration_seconds: i64) -> Option<i64> {
    let until = now + duration_seconds * 1000;
    if until > i64::MAX {
        None
    } else if until < i64::MIN {
        Some(i64::MIN)
    } else {
        Some(until as i64)
    }
}

/// The risk state of all symbols together.
#[derive(Debug)]
pub struct GlobalRiskState {
    pub total_exposure: Decimal,
    pub total_capital_used: Decimal,
    /// The number of symbols with a position.
    pub total_positions: usize,
    pub daily_trades: usize,
    pub daily_pnl: Decimal,
    pub max_daily_drawdown: Decimal,
    pub risk_level: RiskLevel,
    /// Milliseconds since the Unix epoch.
    pub last_risk_check: i64,
    pub global_restricted: bool,
    pub restriction_reason: Option<String>,
}

/// The level of risk at a total exposure: low below 0.015, medium below
/// 0.025, high below 0.03, critical from there on.
pub open spec fn level_at(exposure: Decimal) -> RiskLevel {
    if exposure.lt_spec(Decimal { mantissa: 15, scale: 3 }) {
        RiskLevel::Low
    } else if exposure.lt_spec(Decimal { mantissa: 25, scale: 3 }) {
        RiskLevel::Medium
    } else if exposure.lt_spec(Decimal { mantissa: 3, scale: 2 }) {
        RiskLevel::High
    } else {
        RiskLevel::Critical
    }
}

/// The level of risk at a total exposure.
pub fn risk_level_at(exposure: Decimal) -> (r: RiskLevel)
    requires
        exposure.wf(),
    ensures
        r == level_at(exposure),
{
    if exposure.less_than(&Decimal { mantissa: 15, scale: 3 }) {
        RiskLevel::Low
    } else if exposure.less_than(&Decimal { mantissa: 25, scale: 3 }) {
        RiskLevel::Medium
    } else if exposure.less_than(&Decimal { mantissa: 3, scale: 2 }) {
        RiskLevel::High
    } else {
        RiskLevel::Critical
    }
}

impl GlobalRiskState {
    /// The figures are within the limits of their representation.
    pub open spec fn wf(self) -> bool {
        &&& self.total_exposure.wf()
        &&& self.total_capital_used.wf()
        &&& self.daily_pnl.wf()
        &&& self.max_daily_drawdown.wf()
    }

    /// Nothing exposed, nothing traded, low risk, no restriction.
    pub fn new(now: i64) -> (r: GlobalRiskState)
        ensures
            r.wf(),
            r.total_exposure == Decimal::zero_spec(),
            r.total_capital_used == Decimal::zero_spec(),
            r.total_positions == 0,
            r.daily_trades == 0,
            r.daily_pnl == Decimal::zero_spec(),
            r.max_daily_drawdown == Decimal::zero_spec(),
            r.risk_level == RiskLevel::Low,
            r.last_risk_check == now,
            !r.global_restricted,
            r.restriction_reason is None,
    {
        GlobalRiskState {
            total_exposure: Decimal::zero(),
            total_capital_used: Decimal::zero(),
            total_positions: 0,
            daily_trades: 0,
            daily_pnl: Decimal::zero(),
            max_daily_drawdown: Decimal::zero(),
            risk_level: RiskLevel::Low,
            last_risk_check: now,
            global_restricted: false,
            restriction_reason: None,
        }
    }

    /// Derives the level of risk from the total exposure.
    pub fn update_risk_level(&mut self, now: i64)
        requires
            old(self).wf(),
        ensures
            *final(self) == (GlobalRiskState {
                risk_level: level_at(old(self).total_exposure),
                last_risk_check: now,
                ..*old(self)
            }),
    {
        self.risk_level = risk_level_at(self.total_exposure);
        self.last_risk_check = now;
    }

    /// Restricts all trading.
    pub fn set_global_restriction(&mut self, reason: String)
        ensures
            *final(self) == (GlobalRiskState {
                global_restricted: true,
                restriction_reason: Some(reason),
                ..*old(self)
            }),
    {
        self.global_restricted = true;
        self.restriction_reason = Some(reason);
    }

    /// Lifts the restriction of all trading.
    pub fn clear_global_restriction(&mut self)
        ensures
            *final(self) == (GlobalRiskState {
                global_restricted: false,
                restriction_reason: None,
                ..*old(self)
            }),
    {
        self.global_restricted = false;
        self.restriction_reason = None;
    }

    /// Starts a new day: no trades, no profit, no drawdown yet.
    pub fn reset_daily_stats(&mut self)
        ensures
            *final(self) == (GlobalRiskState {
                daily_trades: 0,
                daily_pnl: Decimal::zero_spec(),
                max_daily_drawdown: Decimal::zero_spec(),
                ..*old(self)
            }),
    {
        self.daily_trades = 0;
        self.daily_pnl = Decimal::zero();
        self.max_daily_drawdown = Decimal::zero();
    }
}

/// Position and capital of one symbol.
pub struct Stake {
    pub position: Decimal,
    pub capital_used: Decimal,
}

/// The sums over the first `upto` stakes, where they can be computed.
pub struct Totals {
    /// The sum of the absolute values of the capital used.
    pub exposure: Decimal,
    /// The sum of the capital used.
    pub capital: Decimal,
    /// The number of stakes with a position other than zero.
    pub positions: usize,
}

/// The sums over the first `upto` stakes, taken from the first on.
pub open spec fn totals_upto(stakes: Seq<Stake>, upto: int) -> Option<Totals>
    decreases upto,
{
    if upto <= 0 {
        Some(Totals { exposure: Decimal::zero_spec(), capital: Decimal::zero_spec(), positions: 0 })
    } else {
        match totals_upto(stakes, upto - 1) {
            None => None,
            Some(t) => match (
                decimal_sum(t.exposure, stakes[upto - 1].capital_used.abs_spec()),
                decimal_sum(t.capital, stakes[upto - 1].capital_used),
            ) {
                (Some(exposure), Some(capital)) => Some(
                    Totals {
                        exposure,
                        capital,
                        positions: if stakes[upto - 1].position.mantissa != 0 {
                            bump_spec(t.positions)
                        } else {
                            t.positions
                        },
                    },
                ),
                _ => None,
            },
        }
    }
}

/// The stakes of a list of symbol states.
pub open spec fn stakes_of(states: Seq<SymbolRiskState>) -> Seq<Stake> {
    Seq::new(
        states.len(),
        |i: int| Stake { position: states[i].position, capital_used: states[i].capital_used },
    )
}

/// The stakes of the states, with the stake at `at` replaced by `stake`,
/// or with `stake` as one more where `at` is none.
pub open spec fn changed_stakes(states: Seq<SymbolRiskState>, at: Option<usize>, stake: Stake) -> Seq<Stake> {
    match at {
        Some(i) => stakes_of(states).update(i as int, stake),
        None => stakes_of(states).push(stake),
    }
}

/// Once the sums over some stakes cannot be computed, neither can those
/// over more of them.
pub proof fn lemma_totals_fail_on(stakes: Seq<Stake>, lower: int, upper: int)
    requires
        lower <= upper,
        totals_upto(stakes, lower) is None,
    ensures
        totals_upto(stakes, upper) is None,
    decreases upper - lower,
{
    if lower < upper {
        lemma_totals_fail_on(stakes, lower, upper - 1);
    }
}

/// What a reported execution does to a stake, where it can be computed:
/// a buy adds the quantity to the position and its value to the capital, a
/// sell takes them away.
pub open spec fn staked(stake: Stake, report: ExecutionReport) -> Option<Stake> {
    match decimal_product(report.price, report.filled_quantity) {
        None => None,
        Some(value) => {
            let (position, capital) = if report.side == Side::Buy {
                (
                    decimal_sum(stake.position, report.filled_quantity),
                    decimal_sum(stake.capital_used, value),
                )
            } else {
                (
                    decimal_difference(stake.position, report.filled_quantity),
                    decimal_difference(stake.capital_used, value),
                )
            };
            match (position, capital) {
                (Some(position), Some(capital_used)) => Some(Stake { position, capital_used }),
                _ => None,
            }
        },
    }
}

/// The number of the day that a time lies in, counted from the Unix
/// epoch.
pub open spec fn day_of(now: i64) -> int {
    now as int / 86_400_000
}

/// The number of the day that a time lies in.
pub fn utc_day(now: i64) -> (r: i64)
    ensures
        r == day_of(now),
{
    if now >= 0 {
        now / 86_400_000
    } else {
        let back: i64 = -(now + 1);
        let days: i64 = back / 86_400_000;
        -days - 1
    }
}

/// The risk state as a whole.
pub struct RiskState {
    pub symbol_states: Table<SymbolRiskState>,
    pub global_state: GlobalRiskState,
    pub metrics: RiskMetrics,
    /// Milliseconds since the Unix epoch.
    pub last_update: i64,
    /// The day of the last reset of the daily figures.
    pub last_reset_day: i64,
}

/// What the check for a new day at `now` makes of the risk state: where
/// the day of the last reset is still on, nothing; else the daily figures
/// of every symbol and of the whole are back at zero, and the new day is
/// noted.
pub open spec fn day_checked(before: RiskState, after: RiskState, now: i64) -> bool {
    if day_of(now) == before.last_reset_day {
        after == before
    } else {
        &&& after.last_reset_day == day_of(now)
        &&& after.last_update == before.last_update
        &&& after.symbol_states.keys@ == before.symbol_states.keys@
        &&& after.symbol_states.values@.len() == before.symbol_states.values@.len()
        &&& forall|i: int|
            0 <= i < after.symbol_states.values@.len() ==> #[trigger] after.symbol_states.values@[i] == (SymbolRiskState {
                daily_trades: 0,
                trades_in_window: 0,
                ..before.symbol_states.values@[i]
            })
        &&& after.global_state == (GlobalRiskState {
            daily_trades: 0,
            daily_pnl: Decimal::zero_spec(),
            max_daily_drawdown: Decimal::zero_spec(),
            ..before.global_state
        })
        &&& after.metrics == (RiskMetrics { daily_pnl: Decimal::zero_spec(), ..before.metrics })
    }
}

impl RiskState {
    /// The table is well-formed, every state stands under its own symbol,
    /// and every figure is within the limits of its representation.
    pub open spec fn wf(self) -> bool {
        &&& self.symbol_states.wf()
        &&& self.global_state.wf()
        &&& forall|i: int|
            0 <= i < self.symbol_states.values@.len() ==> (#[trigger] self.symbol_states.values@[i]).wf()
                && self.symbol_states.values@[i].symbol@ == self.symbol_states.keys@[i]@
    }

    /// A risk state without symbols.
    pub fn new(now: i64) -> (r: RiskState)
        ensures
            r.wf(),
            forall|k: Seq<char>| #[trigger] r.symbol_states.get(k) is None,
            r.global_state.total_exposure == Decimal::zero_spec(),
            r.global_state.risk_level == RiskLevel::Low,
            !r.global_state.global_restricted,
            r.metrics == RiskMetrics::zero(now),
            r.last_update == now,
            r.last_reset_day == day_of(now),
    {
        RiskState {
            symbol_states: Table::new(),
            global_state: GlobalRiskState::new(now),
            metrics: RiskMetrics::new(now),
            last_update: now,
            last_reset_day: utc_day(now),
        }
    }

    /// Whether a signal is taken, which it is unless all trading or its
    /// symbol is restricted.
    pub open spec fn takes(self, signal: Signal, now: i64) -> bool {
        !self.global_state.global_restricted && (match self.symbol_states.get(signal.symbol@) {
            Some(s) => s.can_trade_spec(now),
            None => true,
        })
    }

    /// Takes in a signal. A signal that is taken counts as one more
    /// pending order of its symbol and adds its notional to the total
    /// exposure, from which the level of risk follows. A signal that is
    /// not taken changes nothing.
    pub fn process_signal(&mut self, signal: &Signal, now: i64) -> (r: bool)
        requires
            old(self).wf(),
            signal.wf(),
        ensures
            final(self).wf(),
            r == old(self).takes(*signal, now),
            forall|k: Seq<char>|
                k != signal.symbol@ ==> #[trigger] final(self).symbol_states.get(k) == old(self).symbol_states.get(k),
            !r ==> final(self).global_state == old(self).global_state && final(self).symbol_states
                == old(self).symbol_states,
            r ==> {
                &&& match old(self).symbol_states.get(signal.symbol@) {
                    Some(s) => final(self).symbol_states.get(signal.symbol@) == Some(
                        SymbolRiskState { pending_orders: bump_spec(s.pending_orders), ..s },
                    ),
                    None => final(self).symbol_states.get(signal.symbol@) matches Some(s) && (
                    SymbolRiskState { pending_orders: 0, ..s }).is_fresh(signal.symbol@)
                        && s.pending_orders == 1,
                }
                &&& final(self).global_state == (GlobalRiskState {
                    total_exposure: grown(
                        old(self).global_state.total_exposure,
                        notional_of(*signal).abs_spec(),
                    ),
                    risk_level: level_at(
                        grown(old(self).global_state.total_exposure, notional_of(*signal).abs_spec()),
                    ),
                    last_risk_check: now,
                    ..old(self).global_state
                })
            },
            final(self).metrics == old(self).metrics,
            final(self).last_update == old(self).last_update,
            final(self).last_reset_day == old(self).last_reset_day,
    {
        if self.global_state.global_restricted {
            return false;
        }
        match self.symbol_states.find(signal.symbol.as_str()) {
            Some(i) => {
                if !self.symbol_states.values[i].can_trade(now) {
                    return false;
                }
                self.symbol_states.values[i].pending_orders = bump(
                    self.symbol_states.values[i].pending_orders,
                );
                proof {
                    old(self).symbol_states.lemma_edited(self.symbol_states, i as int);
                    assert forall|j: int| 0 <= j < self.symbol_states.values@.len() implies (
                    #[trigger] self.symbol_states.values@[j]).wf() && self.symbol_states.values@[j].symbol@
                        == self.symbol_states.keys@[j]@ by {
                        if j != i {
                            assert(self.symbol_states.values@[j] == old(self).symbol_states.values@[j]);
                        } else {
                            assert(old(self).symbol_states.values@[j].wf());
                        }
                    }
                }
            },
            None => {
                let mut state = SymbolRiskState::new(signal.symbol.clone());
                state.pending_orders = 1;
                self.symbol_states.push_new(signal.symbol.clone(), state);
                proof {
                    assert forall|j: int| 0 <= j < self.symbol_states.values@.len() implies (
                    #[trigger] self.symbol_states.values@[j]).wf() && self.symbol_states.values@[j].symbol@
                        == self.symbol_states.keys@[j]@ by {
                        if j < old(self).symbol_states.values@.len() {
                            assert(self.symbol_states.values@[j] == old(self).symbol_states.values@[j]);
                        }
                    }
                }
            },
        }
        let notional = notional_or_zero(signal).abs();
        self.global_state.total_exposure = grow(self.global_state.total_exposure, notional);
        self.global_state.update_risk_level(now);
        true
    }

    /// Takes in a reported execution: the stake of its symbol changes by
    /// what was executed, a fill is counted as a trade, a report that ends
    /// the order ends a pending order, and the sums over all symbols are
    /// taken anew, from which the level of risk follows.
    pub fn process_execution(&mut self, report: &ExecutionReport, now: i64) -> (r: Result<(), RiskError>)
        requires
            old(self).wf(),
            report.wf(),
        ensures
            final(self).wf(),
            execution_processed(*old(self), *final(self), *report, now, r),
    {
        let key = symbol_key(report.symbol);
        let at = self.symbol_states.find(key.as_str());
        let before = match at {
            Some(i) => {
                proof {
                    assert(self.symbol_states.values@[i as int].wf());
                }
                Stake {
                    position: self.symbol_states.values[i].position,
                    capital_used: self.symbol_states.values[i].capital_used,
                }
            },
            None => Stake { position: Decimal::zero(), capital_used: Decimal::zero() },
        };
        let stake = match stake_after(&before, report) {
            Some(s) => s,
            None => {
                return Err(RiskError::Arithmetic);
            },
        };
        let totals = match self.totals_with(at, &stake) {
            Some(t) => t,
            None => {
                return Err(RiskError::Arithmetic);
            },
        };
        let filled = report.status == OrderStatus::Filled;
        let ended = ends_order(report.status);
        match at {
            Some(i) => {
                self.symbol_states.values[i].position = stake.position;
                self.symbol_states.values[i].capital_used = stake.capital_used;
                if filled {
                    self.symbol_states.values[i].update_trade_stats(now);
                }
                if ended {
                    self.symbol_states.values[i].pending_orders = drop_one(
                        self.symbol_states.values[i].pending_orders,
                    );
                }
                proof {
                    old(self).symbol_states.lemma_edited(self.symbol_states, i as int);
                    assert forall|j: int| 0 <= j < self.symbol_states.values@.len() implies (
                    #[trigger] self.symbol_states.values@[j]).wf() && self.symbol_states.values@[j].symbol@
                        == self.symbol_states.keys@[j]@ by {
                        if j != i {
                            assert(self.symbol_states.values@[j] == old(self).symbol_states.values@[j]);
                        } else {
                            assert(old(self).symbol_states.values@[j].wf());
                        }
                    }
                    assert(stakes_of(self.symbol_states.values@) =~= changed_stakes(
                        old(self).symbol_states.values@,
                        at,
                        stake,
                    ));
                }
            },
            None => {
                let mut state = SymbolRiskState::new(key.clone());
                state.position = stake.position;
                state.capital_used = stake.capital_used;
                if filled {
                    state.update_trade_stats(now);
                }
                self.symbol_states.push_new(key, state);
                proof {
                    assert forall|j: int| 0 <= j < self.symbol_states.values@.len() implies (
                    #[trigger] self.symbol_states.values@[j]).wf() && self.symbol_states.values@[j].symbol@
                        == self.symbol_states.keys@[j]@ by {
                        if j < old(self).symbol_states.values@.len() {
                            assert(self.symbol_states.values@[j] == old(self).symbol_states.values@[j]);
                        }
                    }
                    assert(stakes_of(self.symbol_states.values@) =~= changed_stakes(
                        old(self).symbol_states.values@,
                        at,
                        stake,
                    ));
                }
            },
        }
        if filled {
            self.global_state.daily_trades = bump(self.global_state.daily_trades);
        }
        self.global_state.total_exposure = totals.exposure;
        self.global_state.total_positions = totals.positions;
        self.global_state.total_capital_used = totals.capital;
        self.global_state.update_risk_level(now);
        self.last_update = now;
        Ok(())
    }

    /// Starts a new day where one has begun since the last reset: the
    /// daily figures of every symbol and of the whole go back to zero.
    /// Says whether it did.
    pub fn check_daily_reset(&mut self, now: i64) -> (r: bool)
        requires
            old(self).wf(),
        ensures
            final(self).wf(),
            r == (day_of(now) != old(self).last_reset_day),
            day_checked(*old(self), *final(self), now),
    {
        let day = utc_day(now);
        if day == self.last_reset_day {
            return false;
        }
        let n = self.symbol_states.values.len();
        let mut i: usize = 0;
        while i < n
            invariant
                i <= n,
                n == self.symbol_states.values@.len(),
                n == old(self).symbol_states.values@.len(),
                old(self).wf(),
                self.symbol_states.keys@ == old(self).symbol_states.keys@,
                self.global_state == old(self).global_state,
                self.metrics == old(self).metrics,
                self.last_update == old(self).last_update,
                self.last_reset_day == old(self).last_reset_day,
                forall|j: int|
                    0 <= j < i ==> #[trigger] self.symbol_states.values@[j] == (SymbolRiskState {
                        daily_trades: 0,
                        trades_in_window: 0,
                        ..old(self).symbol_states.values@[j]
                    }),
                forall|j: int|
                    i <= j < n ==> #[trigger] self.symbol_states.values@[j] == old(self).symbol_states.values@[j],
            decreases n - i,
        {
            self.symbol_states.values[i].reset_daily_stats();
            i += 1;
        }
        self.global_state.reset_daily_stats();
        self.metrics.reset_daily_metrics();
        self.last_reset_day = day;
        proof {
            assert forall|j: int| 0 <= j < self.symbol_states.values@.len() implies (
            #[trigger] self.symbol_states.values@[j]).wf() && self.symbol_states.values@[j].symbol@
                == self.symbol_states.keys@[j]@ by {
                assert(old(self).symbol_states.values@[j].wf());
            }
        }
        true
    }

    /// What the outside is told of the risk state.
    pub fn get_summary(&self) -> (r: RiskSummary)
        requires
            self.wf(),
        ensures
            r.total_exposure == self.global_state.total_exposure,
            r.risk_level == self.global_state.risk_level,
            r.active_positions == self.global_state.total_positions,
            r.daily_trades == self.global_state.daily_trades,
            r.daily_pnl == self.global_state.daily_pnl,
            r.global_restricted == self.global_state.global_restricted,
            r.restricted_symbols@ == restricted_upto(
                self.symbol_states.values@,
                self.symbol_states.values@.len() as int,
            ),
    {
        let mut restricted: Vec<String> = Vec::new();
        let mut i: usize = 0;
        while i < self.symbol_states.values.len()
            invariant
                i <= self.symbol_states.values@.len(),
                restricted@ == restricted_upto(self.symbol_states.values@, i as int),
            decreases self.symbol_states.values@.len() - i,
        {
            if self.symbol_states.values[i].is_restricted {
                restricted.push(self.symbol_states.values[i].symbol.clone());
            }
            i += 1;
        }
        RiskSummary {
            total_exposure: self.global_state.total_exposure,
            risk_level: self.global_state.risk_level,
            active_positions: self.global_state.total_positions,
            daily_trades: self.global_state.daily_trades,
            daily_pnl: self.global_state.daily_pnl,
            restricted_symbols: restricted,
            global_restricted: self.global_state.global_restricted,
        }
    }

    /// The sums over the stakes of the symbols, with the stake at `at`
    /// replaced by `stake`, or with `stake` as one more where `at` is
    /// none.
    fn totals_with(&self, at: Option<usize>, stake: &Stake) -> (r: Option<Totals>)
        requires
            self.wf(),
            stake.position.wf(),
            stake.capital_used.wf(),
            at matches Some(i) ==> i < self.symbol_states.values@.len(),
        ensures
            r == totals_upto(
                changed_stakes(self.symbol_states.values@, at, *stake),
                changed_stakes(self.symbol_states.values@, at, *stake).len() as int,
            ),
            r matches Some(t) ==> t.exposure.wf() && t.capital.wf(),
    {
        let ghost target = changed_stakes(self.symbol_states.values@, at, *stake);
        let mut totals = Totals { exposure: Decimal::zero(), capital: Decimal::zero(), positions: 0 };
        let n = self.symbol_states.values.len();
        let mut i: usize = 0;
        while i < n
            invariant
                i <= n,
                n == self.symbol_states.values@.len(),
                self.wf(),
                stake.position.wf(),
                stake.capital_used.wf(),
                at matches Some(j) ==> j < n,
                target == changed_stakes(self.symbol_states.values@, at, *stake),
                totals.exposure.wf(),
                totals.capital.wf(),
                totals_upto(target, i as int) == Some(totals),
            decreases n - i,
        {
            let (position, capital_used) = match at {
                Some(j) if j == i => (stake.position, stake.capital_used),
                _ => (self.symbol_states.values[i].position, self.symbol_states.values[i].capital_used),
            };
            proof {
                assert(self.symbol_states.values@[i as int].wf());
                assert(target[i as int] == Stake { position, capital_used });
            }
            totals = match add_stake(&totals, position, capital_used) {
                Some(t) => t,
                None => {
                    proof {
                        lemma_totals_fail_on(target, i as int + 1, target.len() as int);
                    }
                    return None;
                },
            };
            i += 1;
        }
        match at {
            Some(_) => Some(totals),
            None => {
                proof {
                    assert(target[n as int] == Stake {
                        position: stake.position,
                        capital_used: stake.capital_used,
                    });
                }
                add_stake(&totals, stake.position, stake.capital_used)
            },
        }
    }
}

/// The sums with one more stake taken in.
fn add_stake(totals: &Totals, position: Decimal, capital_used: Decimal) -> (r: Option<Totals>)
    requires
        totals.exposure.wf(),
        totals.capital.wf(),
        position.wf(),
        capital_used.wf(),
    ensures
        r == (match (
            decimal_sum(totals.exposure, capital_used.abs_spec()),
            decimal_sum(totals.capital, capital_used),
        ) {
            (Some(exposure), Some(capital)) => Some(
                Totals {
                    exposure,
                    capital,
                    positions: if position.mantissa != 0 {
                        bump_spec(totals.positions)
                    } else {
                        totals.positions
                    },
                },
            ),
            _ => None,
        }),
        r matches Some(t) ==> t.exposure.wf() && t.capital.wf(),
{
    let exposure = checked_add(totals.exposure, capital_used.abs());
    let capital = checked_add(totals.capital, capital_used);
    match (exposure, capital) {
        (Some(exposure), Some(capital)) => Some(
            Totals {
                exposure,
                capital,
                positions: if !position.is_zero() {
                    bump(totals.positions)
                } else {
                    totals.positions
                },
            },
        ),
        _ => None,
    }
}

/// What a reported execution does to a stake.
fn stake_after(stake: &Stake, report: &ExecutionReport) -> (r: Option<Stake>)
    requires
        stake.position.wf(),
        stake.capital_used.wf(),
        report.wf(),
    ensures
        r == staked(*stake, *report),
        r matches Some(s) ==> s.position.wf() && s.capital_used.wf(),
{
    let value = match checked_mul(report.price, report.filled_quantity) {
        Some(v) => v,
        None => {
            return None;
        },
    };
    let (position, capital) = if report.side == Side::Buy {
        (
            checked_add(stake.position, report.filled_quantity),
            checked_add(stake.capital_used, value),
        )
    } else {
        (
            checked_sub(stake.position, report.filled_quantity),
            checked_sub(stake.capital_used, value),
        )
    };
    match (position, capital) {
        (Some(position), Some(capital_used)) => Some(Stake { position, capital_used }),
        _ => None,
    }
}

/// The symbols of the restricted ones among the first `upto` states, in
/// their order.
pub open spec fn restricted_upto(states: Seq<SymbolRiskState>, upto: int) -> Seq<String>
    decreases upto,
{
    if upto <= 0 {
        Seq::empty()
    } else if states[upto - 1].is_restricted {
        restricted_upto(states, upto - 1).push(states[upto - 1].symbol)
    } else {
        restricted_upto(states, upto - 1)
    }
}

/// What taking in a reported execution does. Where the new stake or the
/// new sums cannot be computed, nothing changes. Else the symbol has the
/// new stake, a fill is counted as a trade, a report that ends the order
/// (a fill, a cancellation, a rejection) ends a pending order, all other
/// symbols are as they were, and the total exposure
/// is the sum of the absolute values of the capital used over all
/// symbols as they now are.
pub open spec fn execution_processed(
    before: RiskState,
    after: RiskState,
    report: ExecutionReport,
    now: i64,
    r: Result<(), RiskError>,
) -> bool {
    let key = symbol_text(report.symbol);
    let at = if before.symbol_states.has(key) {
        Some(before.symbol_states.slot(key) as usize)
    } else {
        None
    };
    let stake = match before.symbol_states.get(key) {
        Some(s) => staked(Stake { position: s.position, capital_used: s.capital_used }, report),
        None => staked(
            Stake { position: Decimal::zero_spec(), capital_used: Decimal::zero_spec() },
            report,
        ),
    };
    let filled = report.status == OrderStatus::Filled;
    match stake {
        None => r == Err::<(), RiskError>(RiskError::Arithmetic) && after == before,
        Some(stake) => {
            let stakes = changed_stakes(before.symbol_states.values@, at, stake);
            match totals_upto(stakes, stakes.len() as int) {
                None => r == Err::<(), RiskError>(RiskError::Arithmetic) && after == before,
                Some(totals) => {
                    &&& r == Ok::<(), RiskError>(())
                    &&& stakes_of(after.symbol_states.values@) == stakes
                    &&& forall|k: Seq<char>|
                        k != key ==> #[trigger] after.symbol_states.get(k) == before.symbol_states.get(
                            k,
                        )
                    &&& after.symbol_states.get(key) matches Some(s) && s.position == stake.position
                        && s.capital_used == stake.capital_used && (match before.symbol_states.get(
                        key,
                    ) {
                        Some(b) => s == (SymbolRiskState {
                            position: stake.position,
                            capital_used: stake.capital_used,
                            daily_trades: if filled {
                                bump_spec(b.daily_trades)
                            } else {
                                b.daily_trades
                            },
                            trades_in_window: if filled {
                                bump_spec(b.trades_in_window)
                            } else {
                                b.trades_in_window
                            },
                            last_trade_time: if filled {
                                Some(now)
                            } else {
                                b.last_trade_time
                            },
                            pending_orders: if is_terminal_status(report.status) {
                                drop_spec(b.pending_orders)
                            } else {
                                b.pending_orders
                            },
                            ..b
                        }),
                        None => s.symbol@ == key && s.pending_orders == 0 && s.daily_trades == (
                        if filled {
                            1usize
                        } else {
                            0usize
                        }) && !s.is_restricted,
                    })
                    &&& after.global_state == (GlobalRiskState {
                        total_exposure: totals.exposure,
                        total_capital_used: totals.capital,
                        total_positions: totals.positions,
                        daily_trades: if filled {
                            bump_spec(before.global_state.daily_trades)
                        } else {
                            before.global_state.daily_trades
                        },
                        risk_level: level_at(totals.exposure),
                        last_risk_check: now,
                        ..before.global_state
                    })
                    &&& after.metrics == before.metrics
                    &&& after.last_update == now
                    &&& after.last_reset_day == before.last_reset_day
                },
            }
        },
    }
}

} // verus!
