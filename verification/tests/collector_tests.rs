use trading_control::collector::config::Config;
use trading_control::collector::dispatcher::{dispatch, evaluate_triggers};
use trading_control::collector::event_generator::EventGenerator;
use trading_control::collector::signal_manager::{
    contains_index, remove_index, SignalManager, SLOTS,
};
use trading_control::collector::trigger::{
    AnyTrigger, HedgeTrigger, MTCloseTrigger, MTTrigger, Trigger, TriggerRegistry,
    FUNDING_THRESHOLD, OPEN_QUANTITY, SPREAD_PERCENTILE_FLOOR, SPREAD_THRESHOLD,
};
use trading_control::common::decimal::Decimal;
use trading_control::common::events::TradingEvent;
use trading_control::common::messages::EventMessage;
use trading_control::common::types::{
    Exchange, FundingDirection, OrderType, Priority, Real, RiskLevel, Side, Signal, SignalData,
    SignalType, Symbol, TriggerType,
};

use trading_control::engine::config::ExecutorConfig;
use trading_control::engine::executor::executor::{OrderExecutor, Prepared};
use trading_control::engine::executor::types::{
    ExecutionCommand, OrderResponse, OrderSide, OrderStatus as ExecStatus,
    OrderType as ExecOrderType, TimeInForce,
};
use trading_control::engine::health::connection_selector::{ConnectionSelector, SelectionStrategy};
use trading_control::engine::health::health_tracker::HealthTracker;
use trading_control::processor::order::order_state::OrderState;
use trading_control::processor::service::PrePostProcessor;

const T0: i64 = 1_700_000_000_000;

fn float(x: f64) -> Real {
    Real { bits: x.to_bits() }
}

fn spread(percentile: f64) -> Signal {
    Signal::new(
        "spread".to_string(),
        SignalType::AdaptiveSpreadDeviation,
        SignalData::AdaptiveSpreadDeviation {
            exchange_id: 1,
            symbol_id: 42,
            spread_percentile: float(percentile),
            current_spread: float(0.002),
            threshold_percentile: float(0.8),
        },
        T0,
    )
}

fn funding(rate: f64, direction: FundingDirection) -> Signal {
    Signal::new(
        "funding".to_string(),
        SignalType::FundingRateDirection,
        SignalData::FundingRateDirection { exchange_id: 1, symbol_id: 42, funding_rate: float(rate), direction },
        T0 + 1,
    )
}

fn collector() -> (SignalManager, TriggerRegistry) {
    let mut manager = SignalManager::new(T0);
    let mut registry = TriggerRegistry::new();
    for (trigger, slots) in registry.register_default_triggers() {
        for slot in slots {
            manager.register_trigger(slot, trigger);
        }
    }
    (manager, registry)
}

#[test]
fn happy_open() {
    // The collector: a wide spread, then positive funding.
    let (mut manager, registry) = collector();
    let spread_signal = Signal::new(
        "spread".to_string(),
        SignalType::AdaptiveSpreadDeviation,
        SignalData::AdaptiveSpreadDeviation {
            exchange_id: 1,
            symbol_id: 42,
            spread_percentile: float(0.87),
            current_spread: float(0.002),
            threshold_percentile: float(0.8),
        },
        T0,
    );
    let funding_signal = Signal::new(
        "funding".to_string(),
        SignalType::FundingRateDirection,
        SignalData::FundingRateDirection {
            exchange_id: 1,
            symbol_id: 42,
            funding_rate: float(0.0003),
            direction: FundingDirection::Positive,
        },
        T0 + 10,
    );
    assert!(dispatch(&mut manager, &registry, spread_signal, T0).is_empty());
    let mut events = dispatch(&mut manager, &registry, funding_signal, T0 + 10);
    assert_eq!(events.len(), 1);
    assert_eq!(events[0].priority(), Priority::Low);
    let event = match events.remove(0) {
        TradingEvent::OpenPosition(e) => e,
        other => panic!("unexpected event {:?}", other),
    };
    assert_eq!(event.symbol, Symbol(42));
    assert_eq!(event.exchange, Exchange::Binance);
    assert_eq!(event.side, Side::Sell);
    assert_eq!(f64::from_bits(event.quantity.bits), 100.0);
    assert_eq!(event.order_type, OrderType::Market);
    assert_eq!(event.price, None);
    assert_eq!(event.trigger_type, TriggerType::MTTrigger);
    assert_eq!(event.reason, "MT open signal triggered");
    assert_eq!(event.timestamp, T0 + 10);

    // The event travels as a message and comes back as it was.
    let mut generator = EventGenerator::new();
    let message = generator.next_message(TradingEvent::OpenPosition(event), T0 + 11);
    assert_eq!((message.sequence_id, message.timestamp), (0, T0 + 11));
    let back = EventMessage::from_bytes(&message.to_bytes()).unwrap();
    assert_eq!(format!("{:?}", back), format!("{:?}", message));

    // The processor: nothing stands in the way of the order.
    let mut processor = PrePostProcessor::new(T0);
    let mut wanted = Signal::new(
        "open-42".to_string(),
        SignalType::Market,
        SignalData::Market { market_data: String::new() },
        T0 + 10,
    );
    wanted.symbol = "42".to_string();
    wanted.exchange = "binance".to_string();
    wanted.side = Some(Side::Sell);
    wanted.quantity = Decimal::new(100, 0);
    let id = processor.process_signal(wanted, T0 + 20).unwrap();
    assert_eq!(id, "ORD_open-42");
    let order = processor.order_manager.get_order(&id).unwrap();
    assert_eq!((order.state, order.side, order.quantity), (OrderState::Validated, Side::Sell, Decimal::from_int(100)));
    assert_eq!(processor.order_manager.get_next_pending_order(), Some(id.clone()));

    // The engine: five healthy connections, the order goes to three.
    let mut tracker = HealthTracker::new();
    for connection in 1..=5u128 {
        tracker.register_connection(connection, "binance".to_string(), "spot".to_string(), T0);
        tracker.update_success(connection, 1_000 * connection as u64, T0);
    }
    let config = ExecutorConfig {
        order_timeout_ms: 500,
        max_retry_attempts: 3,
        concurrent_send_count: 3,
        idempotent_key_prefix: "TE".to_string(),
    };
    let mut executor = OrderExecutor::new(config, ConnectionSelector::new(SelectionStrategy::HealthScore));
    executor.register_signer("binance".to_string(), "key".to_string(), "secret".to_string());
    let command = ExecutionCommand {
        id: 1,
        exchange: "binance".to_string(),
        market_type: "spot".to_string(),
        symbol: "BTCUSDT".to_string(),
        side: OrderSide::Sell,
        order_type: ExecOrderType::Market,
        quantity: Decimal::from_int(100),
        price: None,
        time_in_force: TimeInForce::IOC,
        client_order_id: Some(id),
        reduce_only: false,
        post_only: false,
    };
    let dispatch_plan = match executor.prepare(&tracker, &command, T0 + 30) {
        Prepared::Send(d) => d,
        Prepared::Rejected(r) => panic!("rejected: {:?}", r.error),
    };
    assert_eq!(dispatch_plan.request.client_order_id, "ORD_open-42");
    assert_eq!(dispatch_plan.connection_ids.len(), 3);
    let mut chosen = dispatch_plan.connection_ids.clone();
    chosen.sort();
    chosen.dedup();
    assert_eq!(chosen.len(), 3);
    assert!(chosen.iter().all(|c| (1..=5).contains(c)));
    let responses: Vec<OrderResponse> = dispatch_plan
        .connection_ids
        .iter()
        .map(|_| OrderResponse {
            order_id: "9001".to_string(),
            client_order_id: "ORD_open-42".to_string(),
            symbol: "BTCUSDT".to_string(),
            status: ExecStatus::New,
            executed_qty: Decimal::zero(),
            executed_price: None,
            timestamp: T0 + 40,
            error: None,
        })
        .collect();
    let result = OrderExecutor::complete(command.id, "binance", responses);
    assert!(result.success);
    assert_eq!(result.selected_response.unwrap().status, ExecStatus::New);
}

#[test]
fn maker_taker_trigger_wants_wide_spread_and_strong_funding() {
    let cases: [(f64, f64, FundingDirection, Option<Side>); 9] = [
        (0.85, 0.002, FundingDirection::Positive, Some(Side::Sell)),
        (0.85, -0.002, FundingDirection::Negative, Some(Side::Buy)),
        (0.85, -0.002, FundingDirection::Positive, Some(Side::Sell)),
        (0.85, 0.002, FundingDirection::Neutral, None),
        (0.8, 0.002, FundingDirection::Positive, None),
        (0.79, 0.002, FundingDirection::Positive, None),
        (0.85, 0.0001, FundingDirection::Positive, None),
        (0.85, 0.00005, FundingDirection::Negative, None),
        (f64::NAN, 0.002, FundingDirection::Positive, None),
    ];
    for (percentile, rate, direction, side) in cases {
        let (mut manager, registry) = collector();
        dispatch(&mut manager, &registry, spread(percentile), T0);
        let events = dispatch(&mut manager, &registry, funding(rate, direction), T0);
        let sides: Vec<Side> = events
            .iter()
            .map(|e| match e {
                TradingEvent::OpenPosition(e) => e.side,
                other => panic!("unexpected event {:?}", other),
            })
            .collect();
        assert_eq!(sides, side.into_iter().collect::<Vec<Side>>(), "{} {}", percentile, rate);
    }
}

#[test]
fn no_trade_without_a_spread_or_on_other_signals() {
    let (mut manager, registry) = collector();
    assert!(dispatch(&mut manager, &registry, funding(0.002, FundingDirection::Positive), T0).is_empty());
    dispatch(&mut manager, &registry, spread(0.9), T0);
    let risk = Signal::new(
        "risk".to_string(),
        SignalType::RealTimeFundingRisk,
        SignalData::RealTimeFundingRisk {
            exchange_id: 1,
            symbol_id: 42,
            risk_level: RiskLevel::High,
            funding_rate: float(0.01),
            position_cost: float(1.0),
        },
        T0,
    );
    assert!(dispatch(&mut manager, &registry, risk, T0).is_empty());
    assert!(dispatch(&mut manager, &registry, spread(0.95), T0).is_empty());
    // A trigger that does not subscribe to the funding rate is not asked.
    let mut manager = SignalManager::new(T0);
    manager.register_trigger(0, 0);
    dispatch(&mut manager, &registry, spread(0.9), T0);
    assert!(dispatch(&mut manager, &registry, funding(0.002, FundingDirection::Positive), T0).is_empty());
    // A subscription of a trigger that is not there asks for nothing.
    manager.register_trigger(2, 17);
    manager.register_trigger(2, 0);
    let f = funding(0.002, FundingDirection::Negative);
    assert_eq!(evaluate_triggers(&manager, &registry, &f, T0).len(), 1);
    assert!(manager.get_last_signal_by_type(SignalType::FundingRateDirection).is_some());
    assert_eq!(dispatch(&mut manager, &registry, f, T0).len(), 1);
}

#[test]
fn thresholds_are_the_bits_of_their_numbers() {
    assert_eq!(SPREAD_PERCENTILE_FLOOR, 0.8f64.to_bits());
    assert_eq!(OPEN_QUANTITY, 100.0f64.to_bits());
    assert_eq!(SPREAD_THRESHOLD, 0.001f64.to_bits());
    assert_eq!(FUNDING_THRESHOLD, 0.0001f64.to_bits());
    let t = MTTrigger::new();
    assert_eq!(f64::from_bits(t.spread_threshold.bits), 0.001);
    assert_eq!(f64::from_bits(t.funding_threshold.bits), 0.0001);
}

#[test]
fn signal_table_keeps_the_latest_of_each_kind() {
    let mut manager = SignalManager::new(T0);
    assert_eq!(manager.signals.len(), SLOTS);
    assert!(manager.get_all_signals().is_empty());
    assert!(manager.get_last_signal(0).is_none());
    assert!(manager.get_status(SLOTS).is_none());
    assert_eq!(manager.get_status(2).unwrap().signal_type, SignalType::FundingRateDirection);
    assert_eq!(manager.get_status_by_type(SignalType::Hedge).unwrap().last_updated, T0);
    assert!(manager.get_status_by_type(SignalType::RiskControlInit).is_none());

    manager.update_signal(funding(0.1, FundingDirection::Positive), T0 + 10);
    manager.update_signal(spread(0.5), T0 + 20);
    manager.update_signal(spread(0.6), T0 + 30);
    let init = Signal::new(
        "init".to_string(),
        SignalType::RiskControlInit,
        SignalData::RiskControlInit { protobuf_data: vec![1, 2, 3] },
        T0,
    );
    manager.update_signal(init, T0 + 40);
    let ids: Vec<&str> = manager.get_all_signals().iter().map(|s| s.id.as_str()).collect();
    assert_eq!(ids, ["spread", "funding"]);
    match &manager.get_last_signal_by_type(SignalType::AdaptiveSpreadDeviation).unwrap().data {
        SignalData::AdaptiveSpreadDeviation { spread_percentile, .. } => {
            assert_eq!(f64::from_bits(spread_percentile.bits), 0.6)
        }
        other => panic!("unexpected payload {:?}", other),
    }
    assert_eq!(manager.get_status(0).unwrap().last_updated, T0 + 30);
    assert_eq!(manager.get_status(2).unwrap().last_updated, T0 + 10);
    assert_eq!(manager.get_status(1).unwrap().last_updated, T0);
    assert!(manager.get_last_signal_by_type(SignalType::RiskControlInit).is_none());
    assert!(manager.get_last_signal(99).is_none());
}

#[test]
fn subscriptions_keep_their_order_and_hold_no_trigger_twice() {
    let mut manager = SignalManager::new(T0);
    manager.register_trigger(0, 5);
    manager.register_trigger(0, 3);
    manager.register_trigger(0, 5);
    manager.register_trigger(0, 9);
    manager.register_trigger(SLOTS, 1);
    assert_eq!(manager.get_trigger_indices_for_signal(SignalType::AdaptiveSpreadDeviation), [5, 3, 9]);
    assert!(manager.get_trigger_indices_for_signal(SignalType::FixedSpreadDeviation).is_empty());
    assert!(manager.get_trigger_indices_for_signal(SignalType::RiskControlInit).is_empty());
    manager.unregister_trigger(0, 3);
    manager.unregister_trigger(0, 4);
    manager.unregister_trigger(1, 5);
    manager.unregister_trigger(SLOTS + 1, 5);
    assert_eq!(manager.get_trigger_indices_for_signal(SignalType::AdaptiveSpreadDeviation), [5, 9]);
    assert!(contains_index(&vec![4, 7], 7));
    assert!(!contains_index(&vec![4, 7], 5));
    assert!(!contains_index(&vec![], 0));
    assert_eq!(remove_index(&vec![1, 2, 1, 3], 1), [2, 3]);
    assert_eq!(remove_index(&vec![1, 2], 3), [1, 2]);
}

#[test]
fn default_triggers_and_their_subscriptions() {
    let (manager, registry) = collector();
    assert_eq!(registry.triggers.len(), 3);
    let names: Vec<&str> = registry.triggers.iter().map(|t| t.name()).collect();
    assert_eq!(names, ["MTTrigger", "MTCloseTrigger", "HedgeTrigger"]);
    let priorities: Vec<Priority> = registry.triggers.iter().map(|t| t.priority()).collect();
    assert_eq!(priorities, [Priority::Medium, Priority::High, Priority::High]);
    assert_eq!(manager.get_trigger_indices_for_signal(SignalType::AdaptiveSpreadDeviation), [0, 1, 2]);
    assert_eq!(manager.get_trigger_indices_for_signal(SignalType::FixedSpreadDeviation), [0, 1, 2]);
    assert_eq!(manager.get_trigger_indices_for_signal(SignalType::FundingRateDirection), [0]);
    assert_eq!(manager.get_trigger_indices_for_signal(SignalType::RealTimeFundingRisk), [1]);
    assert!(manager.get_trigger_indices_for_signal(SignalType::Market).is_empty());
    assert_eq!(registry.get_trigger_by_name("HedgeTrigger").unwrap().0, 2);
    assert!(registry.get_trigger_by_name("Nobody").is_none());
    assert!(matches!(registry.get_trigger(1), Some(AnyTrigger::MTClose(_))));
    assert!(registry.get_trigger(3).is_none());
    let s = spread(0.99);
    assert!(MTCloseTrigger::new().evaluate(&manager, &s, T0).is_none());
    assert!(HedgeTrigger::new().evaluate(&manager, &s, T0).is_none());

    let mut more = TriggerRegistry::new();
    assert_eq!(more.register(AnyTrigger::Hedge(HedgeTrigger::new())), 0);
    assert_eq!(more.register(AnyTrigger::MT(MTTrigger::new())), 1);
    assert_eq!(more.register(AnyTrigger::Hedge(HedgeTrigger::new())), 2);
    assert_eq!(more.get_trigger_by_name("HedgeTrigger").unwrap().0, 2);
    assert_eq!(more.get_trigger_by_name("MTTrigger").unwrap().0, 1);
}

#[test]
fn sequence_ids_count_up_from_zero() {
    let (mut manager, registry) = collector();
    dispatch(&mut manager, &registry, spread(0.9), T0);
    let mut generator = EventGenerator::new();
    for expected in 0..3u64 {
        let mut events = dispatch(&mut manager, &registry, funding(0.5, FundingDirection::Negative), T0);
        let message = generator.next_message(events.remove(0), T0 + expected as i64);
        assert_eq!(message.sequence_id, expected);
        assert_eq!(message.timestamp, T0 + expected as i64);
    }
    assert_eq!(generator.sequence_id, 3);
    let mut last = EventGenerator { sequence_id: u64::MAX };
    let mut events = dispatch(&mut manager, &registry, funding(0.5, FundingDirection::Negative), T0);
    assert_eq!(last.next_message(events.remove(0), T0).sequence_id, u64::MAX);
    assert_eq!(last.sequence_id, u64::MAX);
}

#[test]
fn collector_configuration_is_the_usual_one() {
    let config = Config::load().unwrap();
    assert_eq!(config.iceoryx_topics, ["signals/adaptive_spread", "signals/funding_rate"]);
    assert_eq!(config.zmq_endpoints, ["tcp://127.0.0.1:5555", "tcp://127.0.0.1:5556"]);
    assert_eq!(config.output_topic, "events/trading");
    assert_eq!(format!("{:?}", Config::default()), format!("{:?}", config));
}
