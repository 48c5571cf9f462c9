use rust_decimal::Decimal as Dec;
use trading_control::common::decimal::Decimal;
use trading_control::common::types::{
    Exchange, ExecutionReport, ExecutionType, OrderStatus, OrderType, RiskLevel, Side, Signal,
    SignalData, SignalType, Symbol,
};
use trading_control::processor::order::order_state::OrderState;
use trading_control::processor::pipeline::pipeline::{
    assign_priority, check_signal_age, construct_order, execute_post_pipeline, execute_pre_pipeline,
    Pipeline, PostProcessContext, PreProcessContext,
};
use trading_control::processor::pipeline::shared_state::{
    ends_order, RiskError, RiskQuota, RiskSummary, SharedState,
};
use trading_control::processor::risk_control::risk_rules::{
    create_default_rule_chain, CapitalLimitRule, CooldownRule, DailyTradesRule, PendingOrdersRule,
    PositionLimitRule, RiskRule, RiskRuleChain, RiskRules, Rule, RuleError, SignalAgeRule,
    TotalExposureRule,
};
use trading_control::processor::risk_control::risk_state::{
    risk_level_at, utc_day, GlobalRiskState, RiskMetrics, RiskState, SymbolRiskState,
};
use trading_control::processor::service::{
    due, PrePostProcessor, CLEANUP_INTERVAL_MS, KEEP_HOURS, STATISTICS_INTERVAL_MS,
};

const NOW: i64 = 1_700_000_000_000;

fn dec(mantissa: i128, scale: u32) -> Decimal {
    Decimal::new(mantissa, scale).unwrap()
}

fn outside(d: Decimal) -> Dec {
    Dec::from_i128_with_scale(d.mantissa, d.scale)
}

fn signal(symbol: &str, price: Option<Decimal>, quantity: Option<Decimal>, at: i64) -> Signal {
    let mut s = Signal::new(
        format!("sig-{}", symbol),
        SignalType::Market,
        SignalData::Market { market_data: String::new() },
        at,
    );
    s.symbol = symbol.to_string();
    s.price = price;
    s.quantity = quantity;
    s
}

fn small(symbol: &str) -> Signal {
    signal(symbol, Some(dec(1, 3)), Some(dec(1, 0)), NOW)
}

fn report(symbol: u32, side: Side, price: Decimal, filled: Decimal, status: OrderStatus) -> ExecutionReport {
    ExecutionReport {
        order_id: "X".to_string(),
        client_order_id: "ORD".to_string(),
        symbol: Symbol(symbol),
        exchange: Exchange::Binance,
        side,
        order_type: OrderType::Market,
        price,
        quantity: filled,
        filled_quantity: filled,
        status,
        execution_type: ExecutionType::Trade,
        timestamp: NOW,
    }
}

fn quota(pending: usize, daily: usize, last_trade: Option<i64>) -> RiskQuota {
    let mut q = RiskQuota::new();
    q.pending_orders = pending;
    q.daily_trades = daily;
    q.last_trade_time = last_trade;
    q
}

fn state_with_quota(symbol: &str, q: RiskQuota) -> SharedState {
    let mut state = SharedState::new(NOW);
    state.risk_quotas.upsert(symbol.to_string(), q);
    state
}

#[test]
fn default_quota_and_its_checks() {
    let q = RiskQuota::new();
    assert_eq!((q.max_position, q.max_capital), (dec(100, 0), dec(5000, 0)));
    assert_eq!((q.max_pending_orders, q.max_daily_trades, q.min_cooldown_seconds), (3, 1000, 60));
    assert!(q.can_trade(dec(100, 0), dec(5000, 0)));
    assert!(!q.can_trade(dec(1001, 1), dec(0, 0)));
    assert!(!q.can_trade(dec(0, 0), dec(500001, 2)));
    assert!(!quota(3, 0, None).can_trade(dec(1, 0), dec(1, 0)));
    assert!(!quota(0, 1000, None).can_trade(dec(1, 0), dec(1, 0)));
    assert!(q.check_cooldown(60, NOW));
    assert!(quota(0, 0, Some(NOW - 60_000)).check_cooldown(60, NOW));
    assert!(!quota(0, 0, Some(NOW - 59_999)).check_cooldown(60, NOW));
}

#[test]
fn each_rule_decides_as_it_says() {
    let empty = SharedState::new(NOW);
    let age = SignalAgeRule::new(100);
    assert_eq!(age.check(&signal("7", None, None, NOW - 100), &empty, NOW), Ok(true));
    assert_eq!(age.check(&signal("7", None, None, NOW - 101), &empty, NOW), Ok(false));
    assert_eq!((age.name(), age.is_critical()), ("SignalAge", true));

    let position = PositionLimitRule::new(dec(100, 0));
    assert_eq!(position.check(&signal("7", None, Some(dec(100, 0)), NOW), &empty, NOW), Ok(true));
    assert_eq!(position.check(&signal("7", None, Some(dec(-1001, 1)), NOW), &empty, NOW), Ok(false));
    let huge = Decimal { mantissa: 79_228_162_514_264_337_593_543_950_335, scale: 0 };
    let mut held = SharedState::new(NOW);
    held.update_position(&report(7, Side::Buy, dec(0, 0), huge, OrderStatus::Filled), NOW).unwrap();
    assert_eq!(
        position.check(&signal("Symbol(7)", None, Some(huge), NOW), &held, NOW),
        Err(RuleError::Arithmetic)
    );

    let capital = CapitalLimitRule::new(dec(5000, 0));
    assert_eq!(capital.check(&signal("7", Some(dec(50, 0)), Some(dec(100, 0)), NOW), &empty, NOW), Ok(true));
    assert_eq!(capital.check(&signal("7", Some(dec(5001, 2)), Some(dec(100, 0)), NOW), &empty, NOW), Ok(false));
    assert_eq!(capital.check(&signal("7", None, Some(dec(100, 0)), NOW), &empty, NOW), Ok(true));

    let pending = PendingOrdersRule::new(3);
    assert_eq!(pending.check(&small("7"), &state_with_quota("7", quota(2, 0, None)), NOW), Ok(true));
    assert_eq!(pending.check(&small("7"), &state_with_quota("7", quota(3, 0, None)), NOW), Ok(false));
    assert_eq!(pending.check(&small("8"), &state_with_quota("7", quota(3, 0, None)), NOW), Ok(true));

    let exposure = TotalExposureRule::new(dec(3, 2), dec(25, 3));
    assert_eq!(exposure.check(&signal("7", Some(dec(3, 2)), Some(dec(-1, 0)), NOW), &empty, NOW), Ok(true));
    assert_eq!(exposure.check(&signal("7", Some(dec(31, 3)), Some(dec(1, 0)), NOW), &empty, NOW), Ok(false));
    assert!(exposure.warns(&signal("7", Some(dec(26, 3)), Some(dec(1, 0)), NOW), &empty));
    assert!(!exposure.warns(&signal("7", Some(dec(25, 3)), Some(dec(1, 0)), NOW), &empty));

    let cooldown = CooldownRule::new(60);
    assert_eq!(cooldown.check(&small("7"), &state_with_quota("7", quota(0, 0, Some(NOW - 59_000))), NOW), Ok(false));
    assert_eq!(cooldown.check(&small("7"), &state_with_quota("7", quota(0, 0, Some(NOW - 60_000))), NOW), Ok(true));
    assert_eq!(cooldown.check(&small("7"), &empty, NOW), Ok(true));

    let daily = DailyTradesRule::new(1000);
    assert_eq!(daily.check(&small("7"), &state_with_quota("7", quota(0, 999, None)), NOW), Ok(true));
    assert_eq!(daily.check(&small("7"), &state_with_quota("7", quota(0, 1000, None)), NOW), Ok(false));
    assert!(!daily.is_critical());
}

#[test]
fn chain_stops_at_critical_vetoes_only() {
    let chain = create_default_rule_chain();
    assert_eq!(chain.rules.len(), 7);
    let empty = SharedState::new(NOW);
    assert_eq!(chain.check_all(&small("7"), &empty, NOW), Ok(true));
    assert_eq!(chain.check_all(&signal("7", None, None, NOW - 500), &empty, NOW), Ok(false));
    let busy_day = state_with_quota("7", quota(0, 1000, None));
    assert_eq!(chain.check_all(&small("7"), &busy_day, NOW), Ok(true));
    let soft_then_hard = RiskRuleChain::new()
        .add_rule(Rule::DailyTrades(DailyTradesRule::new(0)))
        .add_rule(Rule::PendingOrders(PendingOrdersRule::new(0)));
    assert_eq!(soft_then_hard.check_all(&small("7"), &empty, NOW), Ok(false));
    let soft_only = RiskRuleChain::new().add_rule(Rule::DailyTrades(DailyTradesRule::new(0)));
    assert_eq!(soft_only.check_all(&small("7"), &empty, NOW), Ok(true));
    assert_eq!(RiskRuleChain::new().check_all(&small("7"), &empty, NOW), Ok(true));
}

#[test]
fn quota_veto() {
    let mut p = PrePostProcessor::new(NOW);
    p.shared_state.risk_quotas.upsert("7".to_string(), quota(3, 0, None));
    let before = p.order_manager.get_stats();
    assert_eq!(p.process_signal(small("7"), NOW), None);
    assert_eq!(p.order_manager.get_stats(), before);
    assert!(p.order_manager.get_order("ORD_sig-7").is_none());
    assert_eq!(p.processed_signals, 1);
    let chain = create_default_rule_chain();
    assert_eq!(chain.rules[3].check(&small("7"), &p.shared_state, NOW), Ok(false));
    assert_eq!(chain.rules[3].name(), "PendingOrders");
    assert!(p.process_signal(small("8"), NOW).is_some());
}

#[test]
fn age_veto() {
    let mut p = PrePostProcessor::new(NOW);
    let old = signal("42", Some(dec(1, 3)), Some(dec(1, 0)), NOW - 500);
    assert_eq!(p.process_signal(old, NOW), None);
    assert_eq!(p.order_manager.get_stats().total_orders, 0);
    assert!(p.shared_state.risk_quotas.lookup("42").is_none());
    assert_eq!(outside(p.shared_state.total_exposure), Dec::ZERO);
    let ctx = check_signal_age(PreProcessContext::new(signal("42", None, None, NOW - 500)), 100, NOW);
    assert!(!ctx.should_continue);
    let ctx = assign_priority(construct_order(ctx, NOW));
    assert!(ctx.order.is_none());
    assert_eq!(ctx.priority, 5);
}

#[test]
fn passing_signal_becomes_a_queued_order() {
    let mut p = PrePostProcessor::new(NOW);
    let mut s = small("42");
    s.signal_type = SignalType::Arbitrage;
    let id = p.process_signal(s, NOW + 100).unwrap();
    assert_eq!(id, "ORD_sig-42");
    let o = p.order_manager.get_order(&id).unwrap();
    assert_eq!((o.state, o.priority), (OrderState::Validated, 10));
    assert_eq!(p.order_manager.get_next_pending_order(), Some(id));
    let mut hedge = small("43");
    hedge.signal_type = SignalType::Hedge;
    let chain = create_default_rule_chain();
    let order = execute_pre_pipeline(PreProcessContext::new(hedge), &p.shared_state, &chain, 100, NOW).unwrap();
    assert_eq!(order.priority, 8);
    let too_big = signal("44", Some(dec(1, 6)), Some(dec(1001, 1)), NOW);
    assert!(execute_pre_pipeline(PreProcessContext::new(too_big), &p.shared_state, &chain, 100, NOW).is_none());
    assert_eq!(p.process_signal(
        Signal::new("init".to_string(), SignalType::RiskControlInit, SignalData::RiskControlInit { protobuf_data: vec![] }, NOW),
        NOW,
    ), None);
}

#[test]
fn pipe_hands_the_value_on() {
    assert_eq!(3u32.pipe(|x| x + 1), 4);
    let ctx = PreProcessContext::new(small("1")).pipe(|c| c.stop());
    assert!(!ctx.should_continue);
    assert_eq!(PreProcessContext::new(small("1")).with_priority(9).priority, 9);
}

#[test]
fn exposure_is_the_sum_over_positions() {
    let mut state = SharedState::new(NOW);
    state.update_position(&report(1, Side::Buy, dec(2, 3), dec(3, 0), OrderStatus::Filled), NOW).unwrap();
    assert_eq!(outside(state.total_exposure), Dec::new(6, 3));
    state.update_position(&report(2, Side::Sell, dec(5, 3), dec(2, 0), OrderStatus::Filled), NOW).unwrap();
    assert_eq!(outside(state.total_exposure), Dec::new(6, 3));
    state.update_position(&report(2, Side::Buy, dec(4, 3), dec(4, 0), OrderStatus::Filled), NOW + 5).unwrap();
    let first = state.positions.lookup("Symbol(1)").unwrap();
    let second = state.positions.lookup("Symbol(2)").unwrap();
    assert_eq!((outside(first.quantity), outside(first.avg_price)), (Dec::from(3), Dec::new(2, 3)));
    assert_eq!(outside(second.quantity), Dec::from(2));
    assert_eq!(outside(second.avg_price), (Dec::ZERO * Dec::from(-2) + Dec::new(4, 3) * Dec::from(4)) / Dec::from(2));
    assert_eq!(outside(second.realized_pnl), Dec::new(5, 3) * Dec::from(2));
    assert_eq!(second.last_update, NOW + 5);
    let sum = (outside(first.quantity) * outside(first.avg_price)).abs() + (outside(second.quantity) * outside(second.avg_price)).abs();
    assert_eq!(outside(state.total_exposure), sum);
    state.update_position(&report(1, Side::Sell, dec(3, 3), dec(5, 0), OrderStatus::Filled), NOW).unwrap();
    let first = state.positions.lookup("Symbol(1)").unwrap();
    assert_eq!(outside(first.quantity), Dec::from(-2));
    assert_eq!(outside(first.realized_pnl), Dec::new(5, 3));
    let second = state.positions.lookup("Symbol(2)").unwrap();
    let sum = (outside(first.quantity) * outside(first.avg_price)).abs() + (outside(second.quantity) * outside(second.avg_price)).abs();
    assert_eq!(outside(state.total_exposure), sum);
}

#[test]
fn update_that_cannot_be_computed_changes_nothing() {
    let mut state = SharedState::new(NOW);
    state.update_position(&report(1, Side::Buy, dec(2, 0), dec(3, 0), OrderStatus::Filled), NOW).unwrap();
    let huge = Decimal { mantissa: 79_228_162_514_264_337_593_543_950_335, scale: 0 };
    assert_eq!(
        state.update_position(&report(1, Side::Buy, dec(2, 0), huge, OrderStatus::Filled), NOW),
        Err(RiskError::Arithmetic)
    );
    assert_eq!(outside(state.total_exposure), Dec::from(6));
    assert_eq!(outside(state.positions.lookup("Symbol(1)").unwrap().quantity), Dec::from(3));
    assert_eq!(
        state.update_risk_quota(&report(1, Side::Buy, huge, dec(2, 0), OrderStatus::Filled), NOW),
        Err(RiskError::Arithmetic)
    );
    assert!(state.risk_quotas.lookup("Symbol(1)").is_none());
}

#[test]
fn quick_checks_of_the_shared_state() {
    let mut state = SharedState::new(NOW);
    assert!(state.risk_check(&small("7"), NOW));
    assert!(state.position_check("7", dec(100, 0)));
    assert!(!state.position_check("7", dec(-1001, 1)));
    state.update_risk_quota(&report(7, Side::Buy, dec(10, 0), dec(2, 0), OrderStatus::Filled), NOW).unwrap();
    let q = *state.risk_quotas.lookup("Symbol(7)").unwrap();
    assert_eq!((outside(q.current_position), outside(q.current_capital)), (Dec::from(2), Dec::from(20)));
    assert_eq!((q.daily_trades, q.pending_orders, q.last_trade_time), (1, 0, Some(NOW)));
    assert!(!state.risk_check(&small("Symbol(7)"), NOW + 59_000));
    assert!(state.risk_check(&small("Symbol(7)"), NOW + 60_000));
    state.total_exposure = dec(3, 2);
    assert!(!state.risk_check(&small("7"), NOW));
    assert!(!state.should_trigger_hedge("Symbol(7)"));
    state.update_position(&report(7, Side::Sell, dec(10, 0), dec(5, 0), OrderStatus::Filled), NOW).unwrap();
    state.hedge_thresholds.upsert("Symbol(7)".to_string(), dec(5, 0));
    assert!(state.should_trigger_hedge("Symbol(7)"));
    state.hedge_thresholds.upsert("Symbol(7)".to_string(), dec(51, 1));
    assert!(!state.should_trigger_hedge("Symbol(7)"));
    state.update_position(&report(7, Side::Buy, dec(10, 0), dec(7, 0), OrderStatus::Filled), NOW).unwrap();
    state.calculate_pnl(&report(7, Side::Buy, dec(12, 0), dec(0, 0), OrderStatus::Filled)).unwrap();
    let p = state.positions.lookup("Symbol(7)").unwrap();
    assert_eq!(outside(p.unrealized_pnl), (Dec::from(12) - outside(p.avg_price)) * outside(p.quantity));
    assert!(!state.persist(NOW + 60_000));
    assert!(state.persist(NOW + 60_001));
    assert!(!state.persist(NOW + 120_001));
    assert!(state.persist(NOW + 120_002));
}

#[test]
fn restricted_symbols_lose_their_quota() {
    let mut state = state_with_quota("a", RiskQuota::new());
    state.risk_quotas.upsert("b".to_string(), RiskQuota::new());
    let mut summary = RiskSummary {
        total_exposure: dec(1, 2),
        risk_level: RiskLevel::Low,
        active_positions: 0,
        daily_trades: 0,
        daily_pnl: Decimal::zero(),
        restricted_symbols: vec!["b".to_string()],
        global_restricted: false,
    };
    state.update_risk_state(&summary);
    assert_eq!(state.total_exposure, dec(1, 2));
    assert_eq!(state.risk_quotas.lookup("a").unwrap().max_pending_orders, 3);
    let b = state.risk_quotas.lookup("b").unwrap();
    assert_eq!((b.max_pending_orders, b.max_position, b.max_capital), (0, Decimal::zero(), Decimal::zero()));
    summary.global_restricted = true;
    state.update_risk_state(&summary);
    assert_eq!(state.risk_quotas.lookup("a").unwrap().max_pending_orders, 0);
}

#[test]
fn post_pipeline_accounts_for_a_report() {
    let mut state = SharedState::new(NOW);
    let r = report(9, Side::Buy, dec(2, 3), dec(5, 0), OrderStatus::Filled);
    let done = execute_post_pipeline(PostProcessContext::new(r), &mut state, NOW + 61_000);
    assert!(done.position_updated && done.quota_updated && done.pnl_calculated && done.persist_due);
    assert!(!done.hedge_needed);
    assert_eq!(outside(state.total_exposure), Dec::new(10, 3));
    assert_eq!(state.risk_quotas.lookup("Symbol(9)").unwrap().daily_trades, 1);
    assert_eq!(state.last_persist_time, NOW + 61_000);
    assert!(!PostProcessContext::new(report(9, Side::Buy, dec(2, 3), dec(5, 0), OrderStatus::Filled)).stop().should_continue);
}

#[test]
fn risk_levels_by_exposure() {
    assert_eq!(risk_level_at(dec(149, 4)), RiskLevel::Low);
    assert_eq!(risk_level_at(dec(15, 3)), RiskLevel::Medium);
    assert_eq!(risk_level_at(dec(249, 4)), RiskLevel::Medium);
    assert_eq!(risk_level_at(dec(25, 3)), RiskLevel::High);
    assert_eq!(risk_level_at(dec(299, 4)), RiskLevel::High);
    assert_eq!(risk_level_at(dec(3, 2)), RiskLevel::Critical);
    assert_eq!(risk_level_at(dec(-5, 0)), RiskLevel::Low);
}

#[test]
fn risk_state_takes_signals_and_executions() {
    let mut rs = RiskState::new(NOW);
    assert!(rs.process_signal(&signal("BTC", Some(dec(-2, 3)), Some(dec(5, 0)), NOW), NOW));
    assert_eq!(rs.symbol_states.lookup("BTC").unwrap().pending_orders, 1);
    assert_eq!(outside(rs.global_state.total_exposure), Dec::new(10, 3));
    assert_eq!(rs.global_state.risk_level, RiskLevel::Low);
    assert!(rs.process_signal(&signal("BTC", Some(dec(1, 2)), Some(dec(1, 0)), NOW), NOW));
    assert_eq!(rs.global_state.risk_level, RiskLevel::Medium);
    rs.global_state.set_global_restriction("halt".to_string());
    assert!(!rs.process_signal(&small("BTC"), NOW));
    rs.global_state.clear_global_restriction();
    rs.symbol_states.values[0].set_restriction("cool".to_string(), 10, NOW);
    assert!(!rs.process_signal(&small("BTC"), NOW + 9_999));
    assert!(rs.process_signal(&small("BTC"), NOW + 10_000));
    assert_eq!(rs.symbol_states.lookup("BTC").unwrap().pending_orders, 3);

    rs.process_execution(&report(1, Side::Buy, dec(2, 3), dec(3, 0), OrderStatus::Filled), NOW).unwrap();
    rs.process_execution(&report(2, Side::Sell, dec(1, 3), dec(4, 0), OrderStatus::PartiallyFilled), NOW).unwrap();
    let one = rs.symbol_states.lookup("Symbol(1)").unwrap();
    assert_eq!((outside(one.position), outside(one.capital_used), one.daily_trades), (Dec::from(3), Dec::new(6, 3), 1));
    let two = rs.symbol_states.lookup("Symbol(2)").unwrap();
    assert_eq!((outside(two.position), outside(two.capital_used), two.daily_trades), (Dec::from(-4), Dec::new(-4, 3), 0));
    assert_eq!(outside(rs.global_state.total_exposure), Dec::new(10, 3));
    assert_eq!(outside(rs.global_state.total_capital_used), Dec::new(2, 3));
    assert_eq!(rs.global_state.total_positions, 2);
    assert_eq!(rs.global_state.daily_trades, 1);
    let summary = rs.get_summary();
    assert_eq!(summary.restricted_symbols, vec!["BTC".to_string()]);
    assert_eq!(summary.active_positions, 2);
}

#[test]
fn daily_figures_start_anew_once_a_day() {
    assert_eq!(utc_day(0), 0);
    assert_eq!(utc_day(86_399_999), 0);
    assert_eq!(utc_day(86_400_000), 1);
    assert_eq!(utc_day(-1), -1);
    assert_eq!(utc_day(-86_400_000), -1);
    assert_eq!(utc_day(-86_400_001), -2);
    let mut rs = RiskState::new(NOW);
    rs.process_execution(&report(1, Side::Buy, dec(2, 3), dec(3, 0), OrderStatus::Filled), NOW).unwrap();
    assert!(!rs.check_daily_reset(NOW + 1));
    assert_eq!(rs.global_state.daily_trades, 1);
    assert!(rs.check_daily_reset(NOW + 86_400_000));
    assert_eq!(rs.global_state.daily_trades, 0);
    assert_eq!(rs.symbol_states.lookup("Symbol(1)").unwrap().daily_trades, 0);
    assert!(!rs.check_daily_reset(NOW + 86_400_001));
}

#[test]
fn small_parts_of_the_risk_state() {
    let mut s = SymbolRiskState::new("X".to_string());
    assert!(s.can_trade(NOW));
    s.update_trade_stats(NOW);
    assert_eq!((s.daily_trades, s.trades_in_window, s.last_trade_time), (1, 1, Some(NOW)));
    s.set_restriction("r".to_string(), i64::MAX, NOW);
    assert!(!s.can_trade(i64::MAX));
    s.clear_restriction();
    assert!(s.can_trade(NOW));
    s.reset_daily_stats();
    assert_eq!(s.daily_trades, 0);
    let mut g = GlobalRiskState::new(NOW);
    g.total_exposure = dec(26, 3);
    g.update_risk_level(NOW + 1);
    assert_eq!((g.risk_level, g.last_risk_check), (RiskLevel::High, NOW + 1));
    g.daily_trades = 4;
    g.reset_daily_stats();
    assert_eq!(g.daily_trades, 0);
    let mut metrics = RiskMetrics::new(NOW);
    metrics.daily_pnl = dec(5, 0);
    metrics.reset_daily_metrics();
    assert_eq!(metrics.daily_pnl, Decimal::zero());
    let mut rules = RiskRules::new();
    assert_eq!(rules.max_daily_trades, 1000);
    rules.update_global_limits(dec(5, 2), 3, 7, dec(1, 0), dec(2, 0));
    assert_eq!((rules.max_position_symbols, rules.max_daily_trades), (3, 7));
    rules.add_symbol_rule("BTC".to_string(), dec(1, 0), dec(2, 0), 3, 4, 5);
    assert_eq!(rules.symbol_rules.lookup("BTC").unwrap().time_window_seconds, 5);
}

#[test]
fn built_in_rules_go_by_their_names() {
    let chain = create_default_rule_chain();
    let names: Vec<&str> = chain.rules.iter().map(|rule| rule.name()).collect();
    assert_eq!(
        names,
        ["SignalAge", "PositionLimit", "CapitalLimit", "PendingOrders", "TotalExposure", "Cooldown", "DailyTrades"]
    );
    let critical: Vec<bool> = chain.rules.iter().map(|rule| rule.is_critical()).collect();
    assert_eq!(critical, [true, true, true, true, true, true, false]);
}

#[test]
fn every_report_that_ends_an_order_ends_a_pending_order() {
    for (status, ends, counts) in [
        (OrderStatus::Filled, true, true),
        (OrderStatus::Cancelled, true, false),
        (OrderStatus::Rejected, true, false),
        (OrderStatus::PartiallyFilled, false, false),
        (OrderStatus::Pending, false, false),
        (OrderStatus::Placed, false, false),
    ] {
        assert_eq!(ends_order(status), ends);
        let mut rs = RiskState::new(NOW);
        assert!(rs.process_signal(&small("Symbol(1)"), NOW));
        assert!(rs.process_signal(&small("Symbol(1)"), NOW));
        assert_eq!(rs.symbol_states.lookup("Symbol(1)").unwrap().pending_orders, 2);
        rs.process_execution(&report(1, Side::Buy, dec(1, 3), dec(0, 0), status), NOW + 1).unwrap();
        let s = rs.symbol_states.lookup("Symbol(1)").unwrap();
        assert_eq!(s.pending_orders, if ends { 1 } else { 2 }, "{:?}", status);
        assert_eq!(s.daily_trades, if counts { 1 } else { 0 }, "{:?}", status);
        assert_eq!(rs.global_state.daily_trades, if counts { 1 } else { 0 }, "{:?}", status);
        rs.process_execution(&report(1, Side::Buy, dec(1, 3), dec(0, 0), status), NOW + 2).unwrap();
        rs.process_execution(&report(1, Side::Buy, dec(1, 3), dec(0, 0), status), NOW + 3).unwrap();
        let s = rs.symbol_states.lookup("Symbol(1)").unwrap();
        assert_eq!(s.pending_orders, if ends { 0 } else { 2 }, "{:?}", status);

        let q = quota(2, 0, None).updated(&report(1, Side::Buy, dec(1, 3), dec(0, 0), status), NOW).unwrap();
        assert_eq!(q.pending_orders, if ends { 1 } else { 2 }, "{:?}", status);
        let q = quota(0, 0, None).updated(&report(1, Side::Buy, dec(1, 3), dec(0, 0), status), NOW).unwrap();
        assert_eq!(q.pending_orders, 0);
    }
}

#[test]
fn sweeps_are_due_after_their_interval() {
    assert_eq!((KEEP_HOURS, CLEANUP_INTERVAL_MS, STATISTICS_INTERVAL_MS), (24, 3_600_000, 60_000));
    assert!(!due(NOW, NOW + 59_999, STATISTICS_INTERVAL_MS));
    assert!(due(NOW, NOW + 60_000, STATISTICS_INTERVAL_MS));
    assert!(due(i64::MIN, i64::MAX, CLEANUP_INTERVAL_MS));
    assert!(!due(i64::MAX, i64::MIN, CLEANUP_INTERVAL_MS));
}
