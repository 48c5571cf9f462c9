//! The rules that a signal must pass before it becomes an order, and the
//! chain that applies them in order.
//!
//! A rule passes a signal, vetoes it, or fails where a figure cannot be
//! computed. A veto or a failure of a critical rule ends the chain; those
//! of other rules are passed over.

use vstd::prelude::*;
use crate::common::decimal::{checked_add, decimal_sum, Decimal};
use crate::common::table::Table;
use crate::common::types::Signal;
use crate::processor::pipeline::shared_state::{elapsed_seconds, seconds_between, SharedState};

verus! {

/// Why a rule could not decide.
#[derive(Debug, Clone, Copy, PartialEq, Eq, Structural)]
pub enum RuleError {
    /// A sum or a product does not fit a decimal.
    Arithmetic,
}

/// What every rule offers.
pub trait RiskRule {
    /// What the rule says of a signal in a state at a time.
    spec fn verdict(&self, signal: Signal, state: SharedState, now: i64) -> Result<bool, RuleError>;

    /// Whether a veto or a failure of the rule ends the chain.
    spec fn critical(&self) -> bool;

    /// The name of the rule.
    spec fn name_spec(&self) -> Seq<char>;

    /// The name of the rule.
    fn name(&self) -> (r: &'static str)
        ensures
            r@ == self.name_spec(),
    ;

    /// Whether the signal passes the rule.
    fn check(&self, signal: &Signal, state: &SharedState, now: i64) -> (r: Result<bool, RuleError>)
        requires
            signal.wf(),
            state.wf(),
            self.rule_wf(),
        ensures
            r == self.verdict(*signal, *state, now),
    ;

    /// Whether a veto or a failure of the rule ends the chain.
    fn is_critical(&self) -> (r: bool)
        ensures
            r == self.critical(),
    ;

    /// The limits of the rule are within the limits of their
    /// representation.
    spec fn rule_wf(&self) -> bool;
}

/// Limits on positions, as shares of the capital.
pub struct PositionRule {
    pub max_single_position_ratio: Decimal,
    pub max_total_position_ratio: Decimal,
    pub max_correlated_position_ratio: Decimal,
}

/// Limits on how often may be traded.
pub struct FrequencyRule {
    pub max_trades_per_minute: usize,
    pub max_trades_per_hour: usize,
    pub max_trades_per_day: usize,
    pub min_trade_interval_ms: u32,
}

/// Limits on losses.
pub struct PnLRule {
    pub max_daily_loss: Decimal,
    pub max_single_loss: Decimal,
    pub max_consecutive_losses: usize,
    pub max_drawdown: Decimal,
}

/// Limits on the market conditions under which may be traded.
pub struct MarketRule {
    pub max_slippage: Decimal,
    pub min_liquidity: Decimal,
    pub max_volatility: Decimal,
}

/// The hours in which may be traded.
pub struct TimeRule {
    /// Start, end, and the days of the week.
    pub trading_windows: Vec<(String, String, Vec<u32>)>,
    /// Days without trading, in milliseconds since the Unix epoch.
    pub blackout_dates: Vec<i64>,
}

/// The limits of one symbol.
pub struct SymbolRule {
    pub symbol: String,
    pub max_position: Decimal,
    pub max_capital_used: Decimal,
    pub max_pending_orders: usize,
    pub max_trades_per_window: usize,
    pub time_window_seconds: u32,
}

/// The configured limits as a whole.
pub struct RiskRules {
    pub position_rule: Option<PositionRule>,
    pub frequency_rule: Option<FrequencyRule>,
    pub pnl_rule: Option<PnLRule>,
    pub market_rule: Option<MarketRule>,
    pub time_rule: Option<TimeRule>,
    pub symbol_rules: Table<SymbolRule>,
    pub max_total_exposure_ratio: Decimal,
    pub max_position_symbols: usize,
    pub max_daily_trades: usize,
    pub max_daily_loss: Decimal,
    pub total_capital: Decimal,
}

impl RiskRules {
    /// No rule of any kind; exposure up to 0.03, ten symbols, a thousand
    /// trades and a loss of ten thousand a day, a capital of a million.
    pub fn new() -> (r: RiskRules)
        ensures
            r.position_rule is None,
            r.frequency_rule is None,
            r.pnl_rule is None,
            r.market_rule is None,
            r.time_rule is None,
            r.symbol_rules.wf(),
            forall|k: Seq<char>| #[trigger] r.symbol_rules.get(k) is None,
            r.max_total_exposure_ratio == (Decimal { mantissa: 3, scale: 2 }),
            r.max_position_symbols == 10,
            r.max_daily_trades == 1000,
            r.max_daily_loss == (Decimal { mantissa: 10_000, scale: 0 }),
            r.total_capital == (Decimal { mantissa: 1_000_000, scale: 0 }),
    {
        RiskRules {
            position_rule: None,
            frequency_rule: None,
            pnl_rule: None,
            market_rule: None,
            time_rule: None,
            symbol_rules: Table::new(),
            max_total_exposure_ratio: Decimal { mantissa: 3, scale: 2 },
            max_position_symbols: 10,
            max_daily_trades: 1000,
            max_daily_loss: Decimal::from_int(10_000),
            total_capital: Decimal::from_int(1_000_000),
        }
    }

    /// Sets the limits that hold for all symbols together.
    pub fn update_global_limits(
        &mut self,
        max_total_exposure_ratio: Decimal,
        max_position_symbols: usize,
        max_daily_trades: usize,
        max_daily_loss: Decimal,
        total_capital: Decimal,
    )
        ensures
            *final(self) == (RiskRules {
                max_total_exposure_ratio,
                max_position_symbols,
                max_daily_trades,
                max_daily_loss,
                total_capital,
                ..*old(self)
            }),
    {
        self.max_total_exposure_ratio = max_total_exposure_ratio;
        self.max_position_symbols = max_position_symbols;
        self.max_daily_trades = max_daily_trades;
        self.max_daily_loss = max_daily_loss;
        self.total_capital = total_capital;
    }

    /// Sets the limits of one symbol.
    pub fn add_symbol_rule(
        &mut self,
        symbol: String,
        max_position: Decimal,
        max_capital_used: Decimal,
        max_pending_orders: usize,
        max_trades_per_window: usize,
        time_window_seconds: u32,
    )
        requires
            old(self).symbol_rules.wf(),
        ensures
            final(self).symbol_rules.wf(),
            final(self).symbol_rules.get(symbol@) matches Some(rule) && rule.symbol == symbol
                && rule.max_position == max_position && rule.max_capital_used == max_capital_used
                && rule.max_pending_orders == max_pending_orders && rule.max_trades_per_window
                == max_trades_per_window && rule.time_window_seconds == time_window_seconds,
            forall|k: Seq<char>|
                k != symbol@ ==> #[trigger] final(self).symbol_rules.get(k) == old(self).symbol_rules.get(
                    k,
                ),
    {
        let rule = SymbolRule {
            symbol: symbol.clone(),
            max_position,
            max_capital_used,
            max_pending_orders,
            max_trades_per_window,
            time_window_seconds,
        };
        self.symbol_rules.upsert(symbol, rule);
    }
}

/// The quantity of a signal; zero where it names none.
pub open spec fn quantity_of(signal: Signal) -> Decimal {
    match signal.quantity {
        Some(q) => q,
        None => Decimal::zero_spec(),
    }
}

/// Price times quantity of a signal; zero where it lacks one of them or
/// the product does not fit.
pub open spec fn notional_of(signal: Signal) -> Decimal {
    match signal.notional_spec() {
        Some(n) => n,
        None => Decimal::zero_spec(),
    }
}

/// Price times quantity of a signal; zero where there is none.
pub fn notional_or_zero(signal: &Signal) -> (r: Decimal)
    requires
        signal.wf(),
    ensures
        r == notional_of(*signal),
        r.wf(),
{
    match signal.notional() {
        Some(n) => n,
        None => Decimal::zero(),
    }
}

/// A signal must not be older than `max_age_ms`.
pub struct SignalAgeRule {
    pub max_age_ms: i64,
}

/// The position of a symbol, long or short, must not pass `max_position`.
pub struct PositionLimitRule {
    pub max_position: Decimal,
}

/// The capital bound in a symbol must not pass `max_capital`.
pub struct CapitalLimitRule {
    pub max_capital: Decimal,
}

/// A symbol must have fewer than `max_pending` orders pending.
pub struct PendingOrdersRule {
    pub max_pending: usize,
}

/// The total exposure must not pass `max_exposure`; from
/// `warning_threshold` on it is worth a warning, which vetoes nothing.
pub struct TotalExposureRule {
    pub max_exposure: Decimal,
    pub warning_threshold: Decimal,
}

/// A symbol must have fewer than `max_daily_trades` trades today. The
/// rule is not critical.
pub struct DailyTradesRule {
    pub max_daily_trades: usize,
}

/// The last trade of a symbol must lie `cooldown_seconds` back.
pub struct CooldownRule {
    pub cooldown_seconds: i64,
}

impl SignalAgeRule {
    pub fn new(max_age_ms: i64) -> (r: SignalAgeRule)
        ensures
            r.max_age_ms == max_age_ms,
    {
        SignalAgeRule { max_age_ms }
    }
}

impl PositionLimitRule {
    pub fn new(max_position: Decimal) -> (r: PositionLimitRule)
        ensures
            r.max_position == max_position,
    {
        PositionLimitRule { max_position }
    }
}

impl CapitalLimitRule {
    pub fn new(max_capital: Decimal) -> (r: CapitalLimitRule)
        ensures
            r.max_capital == max_capital,
    {
        CapitalLimitRule { max_capital }
    }
}

impl PendingOrdersRule {
    pub fn new(max_pending: usize) -> (r: PendingOrdersRule)
        ensures
            r.max_pending == max_pending,
    {
        PendingOrdersRule { max_pending }
    }
}

impl TotalExposureRule {
    pub fn new(max_exposure: Decimal, warning_threshold: Decimal) -> (r: TotalExposureRule)
        ensures
            r.max_exposure == max_exposure,
            r.warning_threshold == warning_threshold,
    {
        TotalExposureRule { max_exposure, warning_threshold }
    }

    /// The exposure that the signal would lead to is worth a warning.
    pub fn warns(&self, signal: &Signal, state: &SharedState) -> (r: bool)
        requires
            signal.wf(),
            state.wf(),
            self.max_exposure.wf(),
            self.warning_threshold.wf(),
        ensures
            r == (decimal_sum(state.total_exposure, notional_of(*signal).abs_spec()) matches Some(e)
                && self.warning_threshold.lt_spec(e)),
    {
        match checked_add(state.total_exposure, notional_or_zero(signal).abs()) {
            Some(e) => e.greater_than(&self.warning_threshold),
            None => false,
        }
    }
}

impl DailyTradesRule {
    pub fn new(max_daily_trades: usize) -> (r: DailyTradesRule)
        ensures
            r.max_daily_trades == max_daily_trades,
    {
        DailyTradesRule { max_daily_trades }
    }
}

impl CooldownRule {
    pub fn new(cooldown_seconds: i64) -> (r: CooldownRule)
        ensures
            r.cooldown_seconds == cooldown_seconds,
    {
        CooldownRule { cooldown_seconds }
    }
}

impl RiskRule for SignalAgeRule {
    open spec fn verdict(&self, signal: Signal, state: SharedState, now: i64) -> Result<bool, RuleError> {
        Ok(now - signal.timestamp <= self.max_age_ms)
    }

    open spec fn critical(&self) -> bool {
        true
    }

    open spec fn rule_wf(&self) -> bool {
        true
    }

    open spec fn name_spec(&self) -> Seq<char> {
        "SignalAge"@
    }

    fn name(&self) -> (r: &'static str) {
        "SignalAge"
    }

    fn check(&self, signal: &Signal, state: &SharedState, now: i64) -> (r: Result<bool, RuleError>) {
        let age: i128 = now as i128 - signal.timestamp as i128;
        Ok(age <= self.max_age_ms as i128)
    }

    fn is_critical(&self) -> (r: bool) {
        true
    }
}

impl RiskRule for PositionLimitRule {
    open spec fn verdict(&self, signal: Signal, state: SharedState, now: i64) -> Result<bool, RuleError> {
        match decimal_sum(state.held(signal.symbol@), quantity_of(signal)) {
            Some(total) => Ok(total.abs_spec().le_spec(self.max_position)),
            None => Err(RuleError::Arithmetic),
        }
    }

    open spec fn critical(&self) -> bool {
        true
    }

    open spec fn rule_wf(&self) -> bool {
        self.max_position.wf()
    }

    open spec fn name_spec(&self) -> Seq<char> {
        "PositionLimit"@
    }

    fn name(&self) -> (r: &'static str) {
        "PositionLimit"
    }

    fn check(&self, signal: &Signal, state: &SharedState, now: i64) -> (r: Result<bool, RuleError>) {
        let held = match state.positions.find(signal.symbol.as_str()) {
            Some(i) => {
                proof {
                    assert(state.positions.values@[i as int].wf());
                }
                state.positions.values[i].quantity
            },
            None => Decimal::zero(),
        };
        let quantity = match signal.quantity {
            Some(q) => q,
            None => Decimal::zero(),
        };
        match checked_add(held, quantity) {
            Some(total) => Ok(total.abs().at_most(&self.max_position)),
            None => Err(RuleError::Arithmetic),
        }
    }

    fn is_critical(&self) -> (r: bool) {
        true
    }
}

impl RiskRule for CapitalLimitRule {
    open spec fn verdict(&self, signal: Signal, state: SharedState, now: i64) -> Result<bool, RuleError> {
        let used = match state.risk_quotas.get(signal.symbol@) {
            Some(q) => q.current_capital,
            None => Decimal::zero_spec(),
        };
        match decimal_sum(used, notional_of(signal)) {
            Some(total) => Ok(total.le_spec(self.max_capital)),
            None => Err(RuleError::Arithmetic),
        }
    }

    open spec fn critical(&self) -> bool {
        true
    }

    open spec fn rule_wf(&self) -> bool {
        self.max_capital.wf()
    }

    open spec fn name_spec(&self) -> Seq<char> {
        "CapitalLimit"@
    }

    fn name(&self) -> (r: &'static str) {
        "CapitalLimit"
    }

    fn check(&self, signal: &Signal, state: &SharedState, now: i64) -> (r: Result<bool, RuleError>) {
        let used = match state.risk_quotas.find(signal.symbol.as_str()) {
            Some(i) => {
                proof {
                    assert(state.risk_quotas.values@[i as int].wf());
                }
                state.risk_quotas.values[i].current_capital
            },
            None => Decimal::zero(),
        };
        match checked_add(used, notional_or_zero(signal)) {
            Some(total) => Ok(total.at_most(&self.max_capital)),
            None => Err(RuleError::Arithmetic),
        }
    }

    fn is_critical(&self) -> (r: bool) {
        true
    }
}

impl RiskRule for PendingOrdersRule {
    open spec fn verdict(&self, signal: Signal, state: SharedState, now: i64) -> Result<bool, RuleError> {
        match state.risk_quotas.get(signal.symbol@) {
            Some(q) => Ok(q.pending_orders < self.max_pending),
            None => Ok(0 < self.max_pending),
        }
    }

    open spec fn critical(&self) -> bool {
        true
    }

    open spec fn rule_wf(&self) -> bool {
        true
    }

    open spec fn name_spec(&self) -> Seq<char> {
        "PendingOrders"@
    }

    fn name(&self) -> (r: &'static str) {
        "PendingOrders"
    }

    fn check(&self, signal: &Signal, state: &SharedState, now: i64) -> (r: Result<bool, RuleError>) {
        let pending = match state.risk_quotas.lookup(signal.symbol.as_str()) {
            Some(q) => q.pending_orders,
            None => 0,
        };
        Ok(pending < self.max_pending)
    }

    fn is_critical(&self) -> (r: bool) {
        true
    }
}

impl RiskRule for TotalExposureRule {
    open spec fn verdict(&self, signal: Signal, state: SharedState, now: i64) -> Result<bool, RuleError> {
        match decimal_sum(state.total_exposure, notional_of(signal).abs_spec()) {
            Some(total) => Ok(total.le_spec(self.max_exposure)),
            None => Err(RuleError::Arithmetic),
        }
    }

    open spec fn critical(&self) -> bool {
        true
    }

    open spec fn rule_wf(&self) -> bool {
        self.max_exposure.wf() && self.warning_threshold.wf()
    }

    open spec fn name_spec(&self) -> Seq<char> {
        "TotalExposure"@
    }

    fn name(&self) -> (r: &'static str) {
        "TotalExposure"
    }

    fn check(&self, signal: &Signal, state: &SharedState, now: i64) -> (r: Result<bool, RuleError>) {
        match checked_add(state.total_exposure, notional_or_zero(signal).abs()) {
            Some(total) => Ok(total.at_most(&self.max_exposure)),
            None => Err(RuleError::Arithmetic),
        }
    }

    fn is_critical(&self) -> (r: bool) {
        true
    }
}

impl RiskRule for DailyTradesRule {
    open spec fn verdict(&self, signal: Signal, state: SharedState, now: i64) -> Result<bool, RuleError> {
        match state.risk_quotas.get(signal.symbol@) {
            Some(q) => Ok(q.daily_trades < self.max_daily_trades),
            None => Ok(0 < self.max_daily_trades),
        }
    }

    open spec fn critical(&self) -> bool {
        false
    }

    open spec fn rule_wf(&self) -> bool {
        true
    }

    open spec fn name_spec(&self) -> Seq<char> {
        "DailyTrades"@
    }

    fn name(&self) -> (r: &'static str) {
        "DailyTrades"
    }

    fn check(&self, signal: &Signal, state: &SharedState, now: i64) -> (r: Result<bool, RuleError>) {
        let trades = match state.risk_quotas.lookup(signal.symbol.as_str()) {
            Some(q) => q.daily_trades,
            None => 0,
        };
        Ok(trades < self.max_daily_trades)
    }

    fn is_critical(&self) -> (r: bool) {
        false
    }
}

impl RiskRule for CooldownRule {
    open spec fn verdict(&self, signal: Signal, state: SharedState, now: i64) -> Result<bool, RuleError> {
        match state.risk_quotas.get(signal.symbol@) {
            Some(q) => match q.last_trade_time {
                Some(t) => Ok(elapsed_seconds(now, t) >= self.cooldown_seconds),
                None => Ok(true),
            },
            None => Ok(true),
        }
    }

    open spec fn critical(&self) -> bool {
        true
    }

    open spec fn rule_wf(&self) -> bool {
        true
    }

    open spec fn name_spec(&self) -> Seq<char> {
        "Cooldown"@
    }

    fn name(&self) -> (r: &'static str) {
        "Cooldown"
    }

    fn check(&self, signal: &Signal, state: &SharedState, now: i64) -> (r: Result<bool, RuleError>) {
        match state.risk_quotas.lookup(signal.symbol.as_str()) {
            Some(q) => match q.last_trade_time {
                Some(t) => Ok(seconds_between(now, t) >= self.cooldown_seconds as i128),
                None => Ok(true),
            },
            None => Ok(true),
        }
    }

    fn is_critical(&self) -> (r: bool) {
        true
    }
}

/// A rule of the chain.
pub enum Rule {
    SignalAge(SignalAgeRule),
    PositionLimit(PositionLimitRule),
    CapitalLimit(CapitalLimitRule),
    PendingOrders(PendingOrdersRule),
    TotalExposure(TotalExposureRule),
    Cooldown(CooldownRule),
    DailyTrades(DailyTradesRule),
}

impl RiskRule for Rule {
    open spec fn verdict(&self, signal: Signal, state: SharedState, now: i64) -> Result<bool, RuleError> {
        match self {
            Rule::SignalAge(r) => r.verdict(signal, state, now),
            Rule::PositionLimit(r) => r.verdict(signal, state, now),
            Rule::CapitalLimit(r) => r.verdict(signal, state, now),
            Rule::PendingOrders(r) => r.verdict(signal, state, now),
            Rule::TotalExposure(r) => r.verdict(signal, state, now),
            Rule::Cooldown(r) => r.verdict(signal, state, now),
            Rule::DailyTrades(r) => r.verdict(signal, state, now),
        }
    }

    open spec fn critical(&self) -> bool {
        match self {
            Rule::SignalAge(r) => r.critical(),
            Rule::PositionLimit(r) => r.critical(),
            Rule::CapitalLimit(r) => r.critical(),
            Rule::PendingOrders(r) => r.critical(),
            Rule::TotalExposure(r) => r.critical(),
            Rule::Cooldown(r) => r.critical(),
            Rule::DailyTrades(r) => r.critical(),
        }
    }

    open spec fn rule_wf(&self) -> bool {
        match self {
            Rule::SignalAge(r) => r.rule_wf(),
            Rule::PositionLimit(r) => r.rule_wf(),
            Rule::CapitalLimit(r) => r.rule_wf(),
            Rule::PendingOrders(r) => r.rule_wf(),
            Rule::TotalExposure(r) => r.rule_wf(),
            Rule::Cooldown(r) => r.rule_wf(),
            Rule::DailyTrades(r) => r.rule_wf(),
        }
    }

    open spec fn name_spec(&self) -> Seq<char> {
        match self {
            Rule::SignalAge(r) => r.name_spec(),
            Rule::PositionLimit(r) => r.name_spec(),
            Rule::CapitalLimit(r) => r.name_spec(),
            Rule::PendingOrders(r) => r.name_spec(),
            Rule::TotalExposure(r) => r.name_spec(),
            Rule::Cooldown(r) => r.name_spec(),
            Rule::DailyTrades(r) => r.name_spec(),
        }
    }

    fn name(&self) -> (r: &'static str) {
        match self {
            Rule::SignalAge(r) => r.name(),
            Rule::PositionLimit(r) => r.name(),
            Rule::CapitalLimit(r) => r.name(),
            Rule::PendingOrders(r) => r.name(),
            Rule::TotalExposure(r) => r.name(),
            Rule::Cooldown(r) => r.name(),
            Rule::DailyTrades(r) => r.name(),
        }
    }

    fn check(&self, signal: &Signal, state: &SharedState, now: i64) -> (r: Result<bool, RuleError>) {
        match self {
            Rule::SignalAge(r) => r.check(signal, state, now),
            Rule::PositionLimit(r) => r.check(signal, state, now),
            Rule::CapitalLimit(r) => r.check(signal, state, now),
            Rule::PendingOrders(r) => r.check(signal, state, now),
            Rule::TotalExposure(r) => r.check(signal, state, now),
            Rule::Cooldown(r) => r.check(signal, state, now),
            Rule::DailyTrades(r) => r.check(signal, state, now),
        }
    }

    fn is_critical(&self) -> (r: bool) {
        match self {
            Rule::SignalAge(r) => r.is_critical(),
            Rule::PositionLimit(r) => r.is_critical(),
            Rule::CapitalLimit(r) => r.is_critical(),
            Rule::PendingOrders(r) => r.is_critical(),
            Rule::TotalExposure(r) => r.is_critical(),
            Rule::Cooldown(r) => r.is_critical(),
            Rule::DailyTrades(r) => r.is_critical(),
        }
    }
}

/// What the rules from position `from` on say of a signal, applied in
/// order. A rule that passes the signal hands it to the next. A veto of a
/// critical rule is the verdict of the chain, a failure of a critical
/// rule its failure; a veto or a failure of another rule is passed over.
/// A signal that reaches the end passes.
pub open spec fn chain_verdict(rules: Seq<Rule>, signal: Signal, state: SharedState, now: i64, from: int) -> Result<
    bool,
    RuleError,
>
    decreases rules.len() - from,
{
    if from < 0 || from >= rules.len() {
        Ok(true)
    } else {
        match rules[from].verdict(signal, state, now) {
            Ok(true) => chain_verdict(rules, signal, state, now, from + 1),
            Ok(false) => if rules[from].critical() {
                Ok(false)
            } else {
                chain_verdict(rules, signal, state, now, from + 1)
            },
            Err(e) => if rules[from].critical() {
                Err(e)
            } else {
                chain_verdict(rules, signal, state, now, from + 1)
            },
        }
    }
}

/// The rules, in the order in which they are applied.
pub struct RiskRuleChain {
    pub rules: Vec<Rule>,
}

impl RiskRuleChain {
    /// Every rule has limits within the limits of their representation.
    pub open spec fn wf(self) -> bool {
        forall|i: int| 0 <= i < self.rules@.len() ==> (#[trigger] self.rules@[i]).rule_wf()
    }

    /// A chain without rules: every signal passes.
    pub fn new() -> (r: RiskRuleChain)
        ensures
            r.rules@.len() == 0,
            r.wf(),
    {
        RiskRuleChain { rules: Vec::new() }
    }

    /// The chain with one more rule at its end.
    pub fn add_rule(self, rule: Rule) -> (r: RiskRuleChain)
        requires
            self.wf(),
            rule.rule_wf(),
        ensures
            r.rules@ == self.rules@.push(rule),
            r.wf(),
    {
        let mut chain = self;
        chain.rules.push(rule);
        chain
    }

    /// Whether the signal passes the chain.
    pub fn check_all(&self, signal: &Signal, state: &SharedState, now: i64) -> (r: Result<bool, RuleError>)
        requires
            self.wf(),
            signal.wf(),
            state.wf(),
        ensures
            r == chain_verdict(self.rules@, *signal, *state, now, 0),
    {
        let mut i: usize = 0;
        while i < self.rules.len()
            invariant
                i <= self.rules@.len(),
                self.wf(),
                signal.wf(),
                state.wf(),
                chain_verdict(self.rules@, *signal, *state, now, 0) == chain_verdict(
                    self.rules@,
                    *signal,
                    *state,
                    now,
                    i as int,
                ),
            decreases self.rules@.len() - i,
        {
            match self.rules[i].check(signal, state, now) {
                Ok(true) => {},
                Ok(false) => {
                    if self.rules[i].is_critical() {
                        return Ok(false);
                    }
                },
                Err(e) => {
                    if self.rules[i].is_critical() {
                        return Err(e);
                    }
                },
            }
            i += 1;
        }
        Ok(true)
    }
}

/// The chain of the built-in rules with their usual limits: signals not
/// older than 100 ms, positions up to 100 lots, capital up to 5000,
/// fewer than 3 pending orders, exposure up to 0.03 with a warning from
/// 0.025, 60 seconds between trades, fewer than 1000 trades a day.
pub fn create_default_rule_chain() -> (r: RiskRuleChain)
    ensures
        r.wf(),
        r.rules@.len() == 7,
        r.rules@[0] == Rule::SignalAge(SignalAgeRule { max_age_ms: 100 }),
        r.rules@[1] == Rule::PositionLimit(
            PositionLimitRule { max_position: Decimal { mantissa: 100, scale: 0 } },
        ),
        r.rules@[2] == Rule::CapitalLimit(
            CapitalLimitRule { max_capital: Decimal { mantissa: 5000, scale: 0 } },
        ),
        r.rules@[3] == Rule::PendingOrders(PendingOrdersRule { max_pending: 3 }),
        r.rules@[4] == Rule::TotalExposure(
            TotalExposureRule {
                max_exposure: Decimal { mantissa: 3, scale: 2 },
                warning_threshold: Decimal { mantissa: 25, scale: 3 },
            },
        ),
        r.rules@[5] == Rule::Cooldown(CooldownRule { cooldown_seconds: 60 }),
        r.rules@[6] == Rule::DailyTrades(DailyTradesRule { max_daily_trades: 1000 }),
{
    RiskRuleChain::new().add_rule(Rule::SignalAge(SignalAgeRule::new(100))).add_rule(
        Rule::PositionLimit(PositionLimitRule::new(Decimal::from_int(100))),
    ).add_rule(Rule::CapitalLimit(CapitalLimitRule::new(Decimal::from_int(5000)))).add_rule(
        Rule::PendingOrders(PendingOrdersRule::new(3)),
    ).add_rule(
        Rule::TotalExposure(
            TotalExposureRule::new(Decimal { mantissa: 3, scale: 2 }, Decimal { mantissa: 25, scale: 3 }),
        ),
    ).add_rule(Rule::Cooldown(CooldownRule::new(60))).add_rule(
        Rule::DailyTrades(DailyTradesRule::new(1000)),
    )
}

} // verus!
