use rust_decimal::Decimal as Dec;
use trading_control::common::decimal::Decimal;
use trading_control::processor::order::arbitrage::{
    hundredths, share, ArbitrageManager, ArbitrageState, ArbitrageStats,
};
use trading_control::processor::order::order_state::OrderState;

const NOW: i64 = 1_700_000_000_000;

fn dec(mantissa: i128, scale: u32) -> Decimal {
    Decimal::new(mantissa, scale).unwrap()
}

fn outside(d: Decimal) -> Dec {
    Dec::from_i128_with_scale(d.mantissa, d.scale)
}

fn pair_with_orders(m: &mut ArbitrageManager, id: &str) {
    let p = m.create_pair(id.to_string(), "BTCUSDT".to_string(), dec(2, 0), dec(100, 0), dec(1015, 1), NOW).unwrap();
    assert_eq!(p.state, ArbitrageState::Created);
    assert_eq!(outside(p.expected_profit), Dec::from(3));
    m.add_order(id.to_string(), format!("{}-maker", id));
    assert_eq!(m.get_pair(id).unwrap().state, ArbitrageState::MakerPending);
    m.add_order(id.to_string(), format!("{}-taker", id));
    assert_eq!(m.get_pair(id).unwrap().state, ArbitrageState::BothPending);
}

#[test]
fn arbitrage_states_know_whether_they_are_final() {
    let all = [
        ArbitrageState::Created,
        ArbitrageState::MakerPending,
        ArbitrageState::MakerFilled,
        ArbitrageState::TakerPending,
        ArbitrageState::BothPending,
        ArbitrageState::Completed,
        ArbitrageState::PartialSuccess,
        ArbitrageState::Failed,
        ArbitrageState::Cancelled,
    ];
    let terminal: Vec<bool> = all.iter().map(|s| s.is_terminal()).collect();
    assert_eq!(terminal, [false, false, false, false, false, true, true, true, true]);
    for s in all {
        assert_eq!(s.is_active(), !s.is_terminal());
    }
}

#[test]
fn arbitrage_partial_success() {
    let mut m = ArbitrageManager::new();
    pair_with_orders(&mut m, "P");
    m.update_order_status("P", "P-maker", OrderState::Filled, NOW + 1);
    assert_eq!(m.get_pair("P").unwrap().state, ArbitrageState::MakerFilled);
    assert!(m.get_hedge_required_pairs().is_empty());
    m.update_order_status("P", "P-taker", OrderState::Rejected, NOW + 2);
    let p = m.get_pair("P").unwrap();
    assert_eq!(p.state, ArbitrageState::PartialSuccess);
    assert_eq!(p.completed_at, Some(NOW + 2));
    assert!(p.actual_profit.is_none());
    let hedge: Vec<&str> = m.get_hedge_required_pairs().iter().map(|p| p.id.as_str()).collect();
    assert_eq!(hedge, ["P"]);
    assert!(m.get_active_pairs().is_empty());
    let stats = m.get_stats();
    assert_eq!((stats.total_pairs, stats.active_pairs, stats.completed_pairs), (1, 0, 1));
    assert_eq!((stats.successful_pairs, stats.failed_pairs), (0, 0));
}

#[test]
fn pair_state_follows_the_decision_table() {
    let filled = OrderState::Filled;
    let cases = [
        (Some(filled), Some(filled), ArbitrageState::Completed),
        (Some(filled), Some(OrderState::Cancelled), ArbitrageState::PartialSuccess),
        (Some(filled), Some(OrderState::Failed), ArbitrageState::PartialSuccess),
        (Some(OrderState::Rejected), Some(filled), ArbitrageState::PartialSuccess),
        (Some(OrderState::Failed), Some(OrderState::Cancelled), ArbitrageState::Failed),
        (Some(filled), Some(OrderState::Acknowledged), ArbitrageState::MakerFilled),
        (Some(filled), None, ArbitrageState::MakerFilled),
        (Some(OrderState::Acknowledged), Some(filled), ArbitrageState::BothPending),
        (Some(OrderState::Rejected), Some(OrderState::Submitted), ArbitrageState::BothPending),
        (None, Some(filled), ArbitrageState::BothPending),
    ];
    for (i, (maker, taker, expected)) in cases.iter().enumerate() {
        let mut m = ArbitrageManager::new();
        let id = format!("P{}", i);
        pair_with_orders(&mut m, &id);
        if let Some(s) = maker {
            m.update_order_status(&id, &format!("{}-maker", id), *s, NOW);
        }
        if let Some(s) = taker {
            m.update_order_status(&id, &format!("{}-taker", id), *s, NOW);
        }
        assert_eq!(m.get_pair(&id).unwrap().state, *expected, "case {}", i);
    }
}

#[test]
fn pair_state_does_not_depend_on_the_order_of_reports() {
    let mut a = ArbitrageManager::new();
    pair_with_orders(&mut a, "P");
    a.update_order_status("P", "P-maker", OrderState::Filled, NOW);
    a.update_order_status("P", "P-taker", OrderState::Filled, NOW);
    let mut b = ArbitrageManager::new();
    pair_with_orders(&mut b, "P");
    b.update_order_status("P", "P-taker", OrderState::Filled, NOW);
    b.update_order_status("P", "P-maker", OrderState::Filled, NOW);
    assert_eq!(a.get_pair("P").unwrap().state, b.get_pair("P").unwrap().state);
    assert_eq!(a.get_pair("P").unwrap().state, ArbitrageState::Completed);
}

#[test]
fn completed_pair_books_its_profit() {
    let mut m = ArbitrageManager::new();
    pair_with_orders(&mut m, "P");
    m.update_order_status("P", "P-taker", OrderState::Filled, NOW + 1);
    m.update_order_status("P", "P-maker", OrderState::Filled, NOW + 2);
    let p = m.get_pair("P").unwrap();
    assert_eq!(p.state, ArbitrageState::Completed);
    assert_eq!(outside(p.actual_profit.unwrap()), Dec::new(285, 2));
    let stats = m.get_stats();
    assert_eq!((stats.successful_pairs, stats.completed_pairs, stats.active_pairs), (1, 1, 0));
    assert_eq!(outside(stats.total_expected_profit), Dec::from(3));
    assert_eq!(outside(stats.total_actual_profit), Dec::new(285, 2));
    assert_eq!(m.get_pair_by_order("P-taker").unwrap().id, "P");
    assert!(m.get_pair_by_order("nobody").is_none());
}

#[test]
fn third_order_and_unknown_pair_change_nothing() {
    let mut m = ArbitrageManager::new();
    pair_with_orders(&mut m, "P");
    m.add_order("P".to_string(), "P-third".to_string());
    let p = m.get_pair("P").unwrap();
    assert_eq!(p.maker_order_id.as_deref(), Some("P-maker"));
    assert_eq!(p.taker_order_id.as_deref(), Some("P-taker"));
    assert_eq!(p.state, ArbitrageState::BothPending);
    m.update_order_status("Q", "P-maker", OrderState::Filled, NOW);
    m.update_order_status("P", "stranger", OrderState::Filled, NOW);
    assert_eq!(m.get_pair("P").unwrap().state, ArbitrageState::BothPending);
    m.add_order("Q".to_string(), "lost".to_string());
    assert!(m.get_pair("Q").is_none());
}

#[test]
fn cancel_and_cleanup_of_pairs() {
    let mut m = ArbitrageManager::new();
    pair_with_orders(&mut m, "A");
    pair_with_orders(&mut m, "B");
    pair_with_orders(&mut m, "C");
    m.cancel_pair("A", NOW);
    assert_eq!(m.get_pair("A").unwrap().state, ArbitrageState::Cancelled);
    m.cancel_pair("A", NOW + 5);
    assert_eq!(m.get_pair("A").unwrap().completed_at, Some(NOW));
    assert_eq!(m.get_stats().active_pairs, 2);
    let hour = 3_600_000;
    m.cancel_pair("B", NOW + 2 * hour);
    m.cleanup_completed_pairs(1, NOW + 2 * hour);
    assert!(m.get_pair("A").is_none());
    assert!(m.get_pair_by_order("A-maker").is_none());
    assert!(m.get_pair("B").is_some());
    assert!(m.get_pair("C").is_some());
    let active: Vec<&str> = m.get_active_pairs().iter().map(|p| p.id.as_str()).collect();
    assert_eq!(active, ["C"]);
}

#[test]
fn pair_whose_profit_does_not_fit_is_not_created() {
    let mut m = ArbitrageManager::new();
    let huge = Decimal { mantissa: 79_228_162_514_264_337_593_543_950_335, scale: 0 };
    assert!(m.create_pair("P".to_string(), "X".to_string(), huge, dec(1, 0), dec(3, 0), NOW).is_none());
    assert!(m.get_pair("P").is_none());
    assert_eq!(m.get_stats().total_pairs, 0);
}

#[test]
fn summary_of_the_pairs_in_one_line() {
    let mut m = ArbitrageManager::new();
    assert_eq!(
        m.get_summary(),
        "Arbitrage Summary: Active=0, Success=0/0, Success Rate=0.00%, Expected Profit=0, Actual Profit=0"
    );
    m.stats = ArbitrageStats {
        total_pairs: 9,
        active_pairs: 4,
        completed_pairs: 3,
        successful_pairs: 2,
        failed_pairs: 1,
        total_expected_profit: dec(12_345, 2),
        total_actual_profit: dec(-5, 1),
    };
    assert_eq!(
        m.get_summary(),
        "Arbitrage Summary: Active=4, Success=2/3, Success Rate=66.67%, Expected Profit=123.45, Actual Profit=-0.5"
    );
    for (part, whole) in [(0usize, 1usize), (1, 1), (1, 3), (2, 3), (1, 7), (5, 8), (1, 32), (3, 32), (999, 1000), (1, 16), (7, 9), (12, 5)] {
        let expected = format!("{:.2}", part as f64 / whole as f64 * 100.0);
        assert_eq!(hundredths(share(part, whole)), expected, "{}/{}", part, whole);
    }
    assert_eq!(share(1, 0), 0);
    assert_eq!(hundredths(7), "0.07");
    assert_eq!(hundredths(1_234_500), "12345.00");
    assert_eq!(hundredths(u128::MAX), "18446744073709551615.55");
}
