use rust_decimal::Decimal as Dec;
use trading_control::common::decimal::Decimal;
use trading_control::common::types::{
    Exchange, ExecutionReport, ExecutionType, OrderStatus, OrderType, Side, Signal, SignalData,
    SignalType, Symbol, TimeInForce,
};
use trading_control::processor::order::order::{
    side_from_name, side_name, Fill, Order, OrderBook, OrderError,
};
use trading_control::processor::order::order_manager::{ManagerError, OrderManager};
use trading_control::processor::order::order_state::{
    OrderState, OrderStateMachine, StateError, StateManager, StateTransitionEvent,
};
use trading_control::processor::order::priority_queue::PriorityQueue;

const NOW: i64 = 1_700_000_000_000;

fn dec(mantissa: i128, scale: u32) -> Decimal {
    Decimal::new(mantissa, scale).unwrap()
}

fn outside(d: Decimal) -> Dec {
    Dec::from_i128_with_scale(d.mantissa, d.scale)
}

fn market_signal(id: &str, symbol: &str, price: i128, quantity: i128) -> Signal {
    let mut s = Signal::new(
        id.to_string(),
        SignalType::Market,
        SignalData::Market { market_data: String::new() },
        NOW,
    );
    s.symbol = symbol.to_string();
    s.exchange = "binance".to_string();
    s.side = Some(Side::Sell);
    s.price = Some(dec(price, 0));
    s.quantity = Some(dec(quantity, 0));
    s.source = "mt".to_string();
    s
}

fn report(order_id: &str, status: OrderStatus, price: i128, filled: i128) -> ExecutionReport {
    ExecutionReport {
        order_id: order_id.to_string(),
        client_order_id: order_id.to_string(),
        symbol: Symbol(42),
        exchange: Exchange::Binance,
        side: Side::Sell,
        order_type: OrderType::Market,
        price: dec(price, 0),
        quantity: dec(10, 0),
        filled_quantity: dec(filled, 0),
        status,
        execution_type: ExecutionType::Trade,
        timestamp: NOW,
    }
}

#[test]
fn states_know_what_they_are() {
    let all = [
        OrderState::Created,
        OrderState::Validated,
        OrderState::Submitting,
        OrderState::Submitted,
        OrderState::Acknowledged,
        OrderState::PartiallyFilled,
        OrderState::Filled,
        OrderState::Cancelled,
        OrderState::Rejected,
        OrderState::Expired,
        OrderState::Failed,
    ];
    let terminal: Vec<bool> = all.iter().map(|s| s.is_terminal()).collect();
    assert_eq!(terminal, [false, false, false, false, false, false, true, true, true, true, true]);
    let active: Vec<bool> = all.iter().map(|s| s.is_active()).collect();
    assert_eq!(active, [false, false, true, true, true, true, false, false, false, false, false]);
    let cancellable: Vec<bool> = all.iter().map(|s| s.can_cancel()).collect();
    assert_eq!(cancellable, [true, true, true, true, true, true, false, false, false, false, false]);
    let retry: Vec<bool> = all.iter().map(|s| s.can_retry()).collect();
    assert_eq!(retry, [false, false, false, false, false, false, false, false, true, false, true]);
    assert_eq!(OrderState::PartiallyFilled.name(), "PartiallyFilled");
}

fn walk(events: Vec<StateTransitionEvent>) -> Result<OrderState, StateError> {
    let mut m = OrderStateMachine::new();
    let mut last = Ok(m.current_state());
    for e in events {
        last = m.transition(&e);
        if last.is_err() {
            return last;
        }
    }
    last
}

#[test]
fn machine_follows_the_table() {
    use_events();
}

fn use_events() {
    let v = || StateTransitionEvent::Validate;
    let s = || StateTransitionEvent::Submit;
    let ok = || StateTransitionEvent::SubmitSuccess("X1".to_string());
    let ack = || StateTransitionEvent::Acknowledge;
    let pf = || StateTransitionEvent::PartialFill(dec(1, 0), dec(100, 0));
    assert_eq!(walk(vec![v()]), Ok(OrderState::Validated));
    assert_eq!(walk(vec![v(), s()]), Ok(OrderState::Submitting));
    assert_eq!(walk(vec![v(), s(), ok()]), Ok(OrderState::Submitted));
    assert_eq!(
        walk(vec![v(), s(), StateTransitionEvent::SubmitFailed("down".to_string())]),
        Ok(OrderState::Failed)
    );
    assert_eq!(walk(vec![v(), s(), ok(), ack()]), Ok(OrderState::Acknowledged));
    assert_eq!(
        walk(vec![v(), s(), ok(), StateTransitionEvent::Reject("no".to_string())]),
        Ok(OrderState::Rejected)
    );
    assert_eq!(walk(vec![v(), s(), ok(), ack(), pf()]), Ok(OrderState::PartiallyFilled));
    assert_eq!(walk(vec![v(), s(), ok(), ack(), pf(), pf()]), Ok(OrderState::PartiallyFilled));
    assert_eq!(
        walk(vec![v(), s(), ok(), ack(), StateTransitionEvent::Fill]),
        Ok(OrderState::Filled)
    );
    assert_eq!(
        walk(vec![v(), s(), ok(), ack(), pf(), StateTransitionEvent::Fill]),
        Ok(OrderState::Filled)
    );
    assert_eq!(walk(vec![StateTransitionEvent::Cancel]), Ok(OrderState::Cancelled));
    assert_eq!(walk(vec![v(), s(), ok(), StateTransitionEvent::Cancel]), Ok(OrderState::Cancelled));
    assert_eq!(walk(vec![v(), s(), StateTransitionEvent::Expire]), Ok(OrderState::Expired));
    assert_eq!(
        walk(vec![v(), StateTransitionEvent::SystemError("bug".to_string())]),
        Ok(OrderState::Failed)
    );
}

#[test]
fn machine_refuses_what_the_table_lacks() {
    let v = || StateTransitionEvent::Validate;
    assert_eq!(
        walk(vec![StateTransitionEvent::Submit]),
        Err(StateError::InvalidTransition(OrderState::Created))
    );
    assert_eq!(
        walk(vec![v(), v()]),
        Err(StateError::InvalidTransition(OrderState::Validated))
    );
    assert_eq!(
        walk(vec![StateTransitionEvent::Expire]),
        Err(StateError::InvalidTransition(OrderState::Created))
    );
    assert_eq!(
        walk(vec![StateTransitionEvent::Cancel, StateTransitionEvent::Cancel]),
        Err(StateError::InvalidTransition(OrderState::Cancelled))
    );
    assert_eq!(
        walk(vec![StateTransitionEvent::Cancel, StateTransitionEvent::SystemError("x".to_string())]),
        Err(StateError::InvalidTransition(OrderState::Cancelled))
    );
    let mut m = OrderStateMachine::new();
    assert!(m.can_transition(&v()));
    assert!(!m.can_transition(&StateTransitionEvent::Fill));
    assert!(m.transition(&StateTransitionEvent::Fill).is_err());
    assert_eq!(m.current_state(), OrderState::Created);
    m.transition(&v()).unwrap();
    m.reset();
    assert_eq!(m.current_state(), OrderState::Created);
}

#[test]
fn state_manager_records_accepted_moves_only() {
    let mut sm = StateManager::new();
    assert_eq!(
        sm.transition_order("o1", StateTransitionEvent::Validate, NOW),
        Err(StateError::UnknownOrder)
    );
    sm.create_order("o1".to_string());
    sm.create_order("o2".to_string());
    assert_eq!(sm.transition_order("o1", StateTransitionEvent::Validate, NOW), Ok(OrderState::Validated));
    assert_eq!(
        sm.transition_order("o1", StateTransitionEvent::Fill, NOW + 1),
        Err(StateError::InvalidTransition(OrderState::Validated))
    );
    assert_eq!(sm.transition_order("o1", StateTransitionEvent::Submit, NOW + 2), Ok(OrderState::Submitting));
    let history = sm.get_history("o1").unwrap();
    assert_eq!(history.len(), 2);
    assert_eq!((history[0].from_state, history[0].to_state), (OrderState::Created, OrderState::Validated));
    assert_eq!((history[1].from_state, history[1].to_state), (OrderState::Validated, OrderState::Submitting));
    assert_eq!(history[1].timestamp, NOW + 2);
    assert_eq!(sm.get_state("o1"), Some(OrderState::Submitting));
    assert_eq!(sm.get_state("o2"), Some(OrderState::Created));
    assert_eq!(sm.get_state("o3"), None);
    assert_eq!(sm.get_active_orders(), vec!["o1".to_string()]);
    sm.transition_order("o2", StateTransitionEvent::Cancel, NOW).unwrap();
    assert_eq!(sm.get_terminal_orders(), vec!["o2".to_string()]);
    sm.cleanup_terminal_orders(true);
    assert_eq!(sm.get_state("o2"), None);
    assert_eq!(sm.get_history("o2").unwrap().len(), 1);
    sm.transition_order("o1", StateTransitionEvent::Cancel, NOW).unwrap();
    sm.cleanup_terminal_orders(false);
    assert!(sm.get_history("o1").is_none());
    assert_eq!(sm.get_history("o2").unwrap().len(), 1);
}

#[test]
fn order_from_signal_has_the_usual_settings() {
    let mut s = market_signal("s1", "BTCUSDT", 100, 10);
    s.metadata = vec![
        ("account".to_string(), "main".to_string()),
        ("arbitrage_id".to_string(), "arb-1".to_string()),
    ];
    let o = Order::from_signal(&s, NOW);
    assert_eq!(o.client_order_id, "ORD_s1");
    assert_eq!(o.signal_id, "s1");
    assert_eq!(o.symbol, "BTCUSDT");
    assert_eq!(o.side, Side::Sell);
    assert_eq!(o.order_type, OrderType::Market);
    assert_eq!(o.time_in_force, TimeInForce::IOC);
    assert_eq!((o.price, o.quantity), (dec(100, 0), dec(10, 0)));
    assert_eq!((o.executed_quantity, o.executed_price), (Decimal::zero(), Decimal::zero()));
    assert_eq!(o.remaining_quantity, dec(10, 0));
    assert_eq!(o.state, OrderState::Created);
    assert_eq!((o.priority, o.max_retry, o.retry_count), (5, 3, 0));
    assert_eq!(o.arbitrage_id, Some("arb-1".to_string()));
    assert_eq!(o.metadata.account, "main");
    assert_eq!(o.metadata.strategy, "mt");
    assert!(!o.is_hedge);
    assert_eq!((o.created_at, o.updated_at), (NOW, NOW));
    assert!(o.filled_at.is_none() && o.submitted_at.is_none() && o.exchange_order_id.is_none());

    let bare = Signal::new("s2".to_string(), SignalType::Hedge, SignalData::Market { market_data: String::new() }, NOW);
    let o = Order::from_signal(&bare, NOW);
    assert_eq!(o.side, Side::Buy);
    assert_eq!((o.price, o.quantity), (Decimal::zero(), Decimal::zero()));
    assert_eq!(o.metadata.account, "default");
    assert!(o.is_hedge);
    assert!(o.arbitrage_id.is_none());
}

#[test]
fn same_signal_gives_same_client_id() {
    let s = market_signal("s1", "BTCUSDT", 100, 10);
    assert_eq!(Order::from_signal(&s, NOW).client_order_id, Order::from_signal(&s, NOW + 5).client_order_id);
}

#[test]
fn executions_keep_the_books_balanced() {
    let mut o = Order::from_signal(&market_signal("s1", "BTCUSDT", 100, 10), NOW);
    o.update_execution(dec(3, 0), dec(100, 0), NOW + 1).unwrap();
    assert_eq!(o.state, OrderState::PartiallyFilled);
    assert_eq!(outside(o.executed_quantity), Dec::from(3));
    assert_eq!(outside(o.remaining_quantity), Dec::from(7));
    assert_eq!(outside(o.executed_price), Dec::from(100));
    assert!(o.filled_at.is_none());
    o.update_execution(dec(45, 1), dec(1015, 1), NOW + 2).unwrap();
    assert_eq!(outside(o.executed_quantity) + outside(o.remaining_quantity), outside(o.quantity));
    assert_eq!(outside(o.executed_quantity), Dec::new(75, 1));
    let expected = (Dec::from(100) * Dec::from(3) + Dec::new(1015, 1) * Dec::new(45, 1)) / Dec::new(75, 1);
    assert_eq!(outside(o.executed_price), expected);
    o.update_execution(dec(25, 1), dec(99, 0), NOW + 3).unwrap();
    assert_eq!(o.state, OrderState::Filled);
    assert_eq!(o.filled_at, Some(NOW + 3));
    assert_eq!(outside(o.remaining_quantity), Dec::ZERO);
    assert_eq!(outside(o.executed_quantity), Dec::from(10));
    assert_eq!(o.updated_at, NOW + 3);
}

#[test]
fn overfill_is_refused_and_changes_nothing() {
    let mut o = Order::from_signal(&market_signal("s1", "BTCUSDT", 100, 10), NOW);
    o.update_execution(dec(6, 0), dec(100, 0), NOW + 1).unwrap();
    let before = format!("{:?}", o);
    assert_eq!(o.update_execution(dec(5, 0), dec(100, 0), NOW + 2), Err(OrderError::Overfill));
    assert_eq!(format!("{:?}", o), before);
    assert_eq!(
        o.preview_execution(Decimal { mantissa: 79_228_162_514_264_337_593_543_950_335, scale: 0 }, dec(1, 0)).err(),
        Some(OrderError::Arithmetic)
    );
}

#[test]
fn order_values_and_summary() {
    let mut o = Order::from_signal(&market_signal("s1", "BTCUSDT", 100, 10), NOW);
    assert_eq!(outside(o.calculate_value().unwrap()), Dec::from(1000));
    assert_eq!(outside(o.calculate_executed_value().unwrap()), Dec::ZERO);
    o.update_execution(dec(3, 0), dec(101, 0), NOW).unwrap();
    assert_eq!(outside(o.calculate_executed_value().unwrap()), Dec::from(303));
    assert_eq!(o.summary(), "Order ORD_s1 Sell 10 BTCUSDT @ 100 (state: PartiallyFilled)");
    assert!(o.is_active());
    assert!(!o.is_completed());
    assert!(!o.can_retry());
    o.set_state(OrderState::Failed, NOW);
    assert!(o.can_retry());
    o.increment_retry(NOW + 1);
    o.increment_retry(NOW + 1);
    o.increment_retry(NOW + 1);
    assert_eq!(o.retry_count, 3);
    assert!(!o.can_retry());
    o.set_exchange_order_id("X9".to_string(), NOW + 2);
    assert_eq!(o.exchange_order_id, Some("X9".to_string()));
    assert_eq!(o.submitted_at, Some(NOW + 2));
}

#[test]
fn fill_amounts() {
    let fill = |currency: &str| Fill {
        order_id: "o".to_string(),
        trade_id: "t".to_string(),
        symbol: "BTCUSDT".to_string(),
        side: Side::Buy,
        price: dec(1005, 1),
        quantity: dec(2, 0),
        fee: dec(25, 2),
        fee_currency: currency.to_string(),
        timestamp: NOW,
    };
    assert_eq!(outside(fill("USDT").calculate_amount().unwrap()), Dec::new(2010, 1));
    assert_eq!(outside(fill("USDT").calculate_net_amount().unwrap()), Dec::new(20075, 2));
    assert_eq!(outside(fill("BNB").calculate_net_amount().unwrap()), Dec::new(2010, 1));
}

#[test]
fn book_indexes_by_client_exchange_and_symbol() {
    let mut book = OrderBook::new();
    let mut a = Order::from_signal(&market_signal("a", "BTCUSDT", 100, 1), NOW);
    a.exchange_order_id = Some("XA".to_string());
    let b = Order::from_signal(&market_signal("b", "BTCUSDT", 100, 2), NOW);
    let c = Order::from_signal(&market_signal("c", "ETHUSDT", 100, 3), NOW);
    book.add_order(a);
    book.add_order(b);
    book.add_order(c);
    assert_eq!(book.get_by_client_id("ORD_b").unwrap().quantity, dec(2, 0));
    assert!(book.get_by_client_id("ORD_z").is_none());
    assert_eq!(book.get_by_exchange_id("XA").unwrap().client_order_id, "ORD_a");
    assert!(book.get_by_exchange_id("XB").is_none());
    let btc: Vec<&str> = book.get_by_symbol("BTCUSDT").iter().map(|o| o.client_order_id.as_str()).collect();
    assert_eq!(btc, ["ORD_a", "ORD_b"]);
    assert_eq!(book.get_by_symbol("SOLUSDT").len(), 0);
    assert_eq!(book.get_pending_orders().len(), 3);
    assert_eq!(book.get_active_orders().len(), 0);

    let mut b2 = Order::from_signal(&market_signal("b", "BTCUSDT", 100, 2), NOW);
    b2.set_state(OrderState::Submitted, NOW);
    b2.exchange_order_id = Some("XB".to_string());
    book.update_order(b2);
    let active: Vec<&str> = book.get_active_orders().iter().map(|o| o.client_order_id.as_str()).collect();
    assert_eq!(active, ["ORD_b"]);
    let pending: Vec<&str> = book.get_pending_orders().iter().map(|o| o.client_order_id.as_str()).collect();
    assert_eq!(pending, ["ORD_a", "ORD_c"]);
    assert_eq!(book.get_by_exchange_id("XB").unwrap().client_order_id, "ORD_b");

    let mut b3 = Order::from_signal(&market_signal("b", "BTCUSDT", 100, 2), NOW);
    b3.set_state(OrderState::Cancelled, NOW);
    book.update_order(b3);
    assert_eq!(book.get_active_orders().len(), 0);
    assert_eq!(book.get_pending_orders().len(), 2);
}

#[test]
fn queue_serves_by_priority_then_by_arrival() {
    let mut q = PriorityQueue::new();
    assert!(q.is_empty());
    assert_eq!(q.pop(), None);
    q.push("low-1".to_string(), 0);
    q.push("mid-1".to_string(), 5);
    q.push("top-1".to_string(), 10);
    q.push("mid-2".to_string(), 5);
    q.push("over".to_string(), 200);
    q.push("low-2".to_string(), 0);
    q.push("mid-3".to_string(), 5);
    assert!(!q.is_empty());
    assert_eq!(q.len(), 7);
    let mut served = Vec::new();
    while let Some(id) = q.pop() {
        served.push(id);
    }
    assert_eq!(served, ["top-1", "over", "mid-1", "mid-2", "mid-3", "low-1", "low-2"]);
    assert_eq!(q.len(), 0);
}

fn submitted_order(m: &mut OrderManager, signal_id: &str) -> String {
    let id = m.create_order_from_signal(market_signal(signal_id, "BTCUSDT", 100, 10), NOW);
    m.validate_order(&id, NOW).unwrap();
    assert_eq!(m.get_next_pending_order(), Some(id.clone()));
    m.mark_submitting(&id, NOW).unwrap();
    m.mark_submitted(&id, format!("X-{}", signal_id), NOW + 10).unwrap();
    id
}

#[test]
fn partial_then_full_fill() {
    let mut m = OrderManager::new();
    let id = submitted_order(&mut m, "s1");
    assert_eq!(m.get_order_status(&id), Some(OrderState::Submitted));
    m.process_execution_report(report("X-s1", OrderStatus::Pending, 0, 0), "t0".to_string(), NOW + 20).unwrap();
    assert_eq!(m.get_order_status(&id), Some(OrderState::Acknowledged));
    m.process_execution_report(report("X-s1", OrderStatus::PartiallyFilled, 100, 3), "t1".to_string(), NOW + 30).unwrap();
    m.process_execution_report(report(&id, OrderStatus::PartiallyFilled, 101, 4), "t2".to_string(), NOW + 40).unwrap();
    assert_eq!(m.get_order_status(&id), Some(OrderState::PartiallyFilled));
    m.process_execution_report(report("X-s1", OrderStatus::Filled, 101, 3), "t3".to_string(), NOW + 50).unwrap();

    let o = m.get_order(&id).unwrap();
    assert_eq!(o.state, OrderState::Filled);
    assert_eq!(o.filled_at, Some(NOW + 50));
    assert_eq!(outside(o.executed_quantity), Dec::from(10));
    assert_eq!(outside(o.remaining_quantity), Dec::ZERO);
    let after_two = (Dec::from(100) * Dec::from(3) + Dec::from(101) * Dec::from(4)) / Dec::from(7);
    let expected = (after_two * Dec::from(7) + Dec::from(101) * Dec::from(3)) / Dec::from(10);
    assert_eq!(outside(o.executed_price), expected);
    assert!((expected - Dec::new(1007, 1)).abs() < Dec::new(1, 20));

    let history = m.state_manager.get_history(&id).unwrap();
    let states: Vec<OrderState> = history.iter().map(|h| h.to_state).collect();
    assert_eq!(
        states,
        [
            OrderState::Validated,
            OrderState::Submitting,
            OrderState::Submitted,
            OrderState::Acknowledged,
            OrderState::PartiallyFilled,
            OrderState::PartiallyFilled,
            OrderState::Filled,
        ]
    );
    assert_eq!(history[2..].len(), 5);
    for pair in history.windows(2) {
        assert_eq!(pair[0].to_state, pair[1].from_state);
    }

    let fills = m.get_fills(&id).unwrap();
    assert_eq!(fills.len(), 3);
    assert_eq!(fills[0].trade_id, "t1");
    assert_eq!(fills[0].symbol, "Symbol(42)");
    assert_eq!(fills[2].quantity, dec(3, 0));
    assert_eq!(fills[2].fee_currency, "USDT");

    let stats = m.get_stats();
    assert_eq!((stats.total_orders, stats.filled_orders, stats.active_orders), (1, 1, 0));
    assert_eq!(stats.success_rate_bp, 10_000);
    assert_eq!(stats.avg_fill_time_ms, 40);
    assert_eq!(outside(stats.total_volume), outside(o.executed_quantity) * outside(o.executed_price));
}

#[test]
fn reports_that_cannot_be_booked_change_nothing() {
    let mut m = OrderManager::new();
    let id = submitted_order(&mut m, "s1");
    assert_eq!(
        m.process_execution_report(report("nobody", OrderStatus::Filled, 100, 1), "t".to_string(), NOW),
        Err(ManagerError::UnknownOrder)
    );
    assert_eq!(
        m.process_execution_report(report(&id, OrderStatus::Filled, 100, 10), "t".to_string(), NOW),
        Err(ManagerError::State(StateError::InvalidTransition(OrderState::Submitted)))
    );
    m.process_execution_report(report(&id, OrderStatus::Pending, 0, 0), "t".to_string(), NOW).unwrap();
    assert_eq!(
        m.process_execution_report(report(&id, OrderStatus::PartiallyFilled, 100, 11), "t".to_string(), NOW),
        Err(ManagerError::Booking(OrderError::Overfill))
    );
    assert_eq!(m.get_order_status(&id), Some(OrderState::Acknowledged));
    assert_eq!(m.state_manager.get_state(&id), Some(OrderState::Acknowledged));
    assert!(m.get_fills(&id).is_none());
    assert_eq!(m.process_execution_report(report(&id, OrderStatus::Placed, 0, 0), "t".to_string(), NOW), Ok(()));
    assert_eq!(m.get_order_status(&id), Some(OrderState::Acknowledged));
}

#[test]
fn rejection_and_cancellation_are_counted() {
    let mut m = OrderManager::new();
    let a = submitted_order(&mut m, "a");
    m.process_execution_report(report(&a, OrderStatus::Rejected, 0, 0), "t".to_string(), NOW).unwrap();
    assert_eq!(m.get_order_status(&a), Some(OrderState::Rejected));
    let b = submitted_order(&mut m, "b");
    m.cancel_order(&b, NOW).unwrap();
    assert_eq!(m.state_manager.get_state(&b), Some(OrderState::Cancelled));
    assert_eq!(m.get_order_status(&b), Some(OrderState::Submitted));
    m.process_execution_report(report(&b, OrderStatus::Cancelled, 0, 0), "t".to_string(), NOW).unwrap();
    assert_eq!(m.get_order_status(&b), Some(OrderState::Cancelled));
    let c = submitted_order(&mut m, "c");
    m.process_execution_report(report(&c, OrderStatus::Cancelled, 0, 0), "t".to_string(), NOW).unwrap();
    assert_eq!(m.get_order_status(&c), Some(OrderState::Cancelled));
    let stats = m.get_stats();
    assert_eq!((stats.rejected_orders, stats.cancelled_orders, stats.filled_orders), (1, 2, 0));
    assert_eq!(stats.success_rate_bp, 0);
    assert_eq!(m.cancel_order(&a, NOW), Err(ManagerError::CannotCancel(OrderState::Rejected)));
    assert_eq!(m.cancel_order("nobody", NOW), Err(ManagerError::UnknownOrder));
    let d = submitted_order(&mut m, "d");
    m.handle_order_expired(&d, NOW).unwrap();
    assert_eq!(m.get_order_status(&d), Some(OrderState::Expired));
}

#[test]
fn failed_submission_is_retried_while_retries_are_left() {
    let mut m = OrderManager::new();
    let id = m.create_order_from_signal(market_signal("s1", "BTCUSDT", 100, 10), NOW);
    m.validate_order(&id, NOW).unwrap();
    assert_eq!(m.get_next_pending_order(), Some(id.clone()));
    assert_eq!(m.get_next_pending_order(), None);
    m.mark_submitting(&id, NOW).unwrap();
    m.mark_submit_failed(&id, "down".to_string(), NOW).unwrap();
    let o = m.get_order(&id).unwrap();
    assert_eq!((o.state, o.retry_count), (OrderState::Failed, 1));
    assert_eq!(m.priority_queue.len(), 1);
    assert_eq!(
        m.mark_submit_failed(&id, "again".to_string(), NOW),
        Err(StateError::InvalidTransition(OrderState::Failed))
    );
    assert_eq!(m.validate_order("nobody", NOW), Err(StateError::UnknownOrder));
}

#[test]
fn cleanup_removes_old_terminal_orders_only() {
    let mut m = OrderManager::new();
    let old = submitted_order(&mut m, "old");
    m.process_execution_report(report(&old, OrderStatus::Rejected, 0, 0), "t".to_string(), NOW).unwrap();
    let live = submitted_order(&mut m, "live");
    let recent = submitted_order(&mut m, "recent");
    let day = 24 * 3_600_000;
    m.process_execution_report(report(&recent, OrderStatus::Rejected, 0, 0), "t".to_string(), NOW + day).unwrap();
    m.cleanup_completed_orders(24, NOW + day + 1);
    assert!(m.get_order(&old).is_none());
    assert!(m.state_manager.get_state(&old).is_none());
    assert!(m.get_order(&live).is_some());
    assert!(m.get_order(&recent).is_some());
    assert_eq!(m.state_manager.get_state(&recent), Some(OrderState::Rejected));
}

#[test]
fn next_pending_order_is_the_first_that_is_still_validated() {
    let mut m = OrderManager::new();
    let mut ids = Vec::new();
    for (name, kind) in [
        ("low", SignalType::Market),
        ("gone", SignalType::Arbitrage),
        ("top", SignalType::Arbitrage),
        ("mid", SignalType::Hedge),
    ] {
        let mut signal = market_signal(name, "BTCUSDT", 100, 1);
        signal.signal_type = kind;
        let id = m.create_order_from_signal(signal, NOW);
        let priority = match kind {
            SignalType::Arbitrage => 10,
            SignalType::Hedge => 8,
            _ => 5,
        };
        m.order_book.orders_by_client_id.values.iter_mut().find(|o| o.client_order_id == id).unwrap().priority = priority;
        m.validate_order(&id, NOW).unwrap();
        ids.push(id);
    }
    assert_eq!(m.priority_queue.len(), 4);
    // The first of the highest band is cancelled while it waits.
    m.cancel_order("ORD_gone", NOW + 1).unwrap();
    m.order_book.orders_by_client_id.values.iter_mut().find(|o| o.client_order_id == "ORD_gone").unwrap().state =
        OrderState::Cancelled;
    assert_eq!(m.get_next_pending_order().as_deref(), Some("ORD_top"));
    assert_eq!(m.priority_queue.len(), 2);
    assert_eq!(m.get_next_pending_order().as_deref(), Some("ORD_mid"));
    assert_eq!(m.get_next_pending_order().as_deref(), Some("ORD_low"));
    assert_eq!(m.get_next_pending_order(), None);
    assert!(m.priority_queue.is_empty());
}

#[test]
fn sides_go_by_their_names() {
    for side in [Side::Buy, Side::Sell] {
        assert_eq!(side_from_name(side_name(side)), Some(side));
    }
    assert_eq!((side_name(Side::Buy), side_name(Side::Sell)), ("Buy", "Sell"));
    assert_eq!(side_from_name("buy"), None);
    assert_eq!(side_from_name(""), None);
    assert_eq!(side_from_name("Sells"), None);
}
