use trading_control::engine::health::connection_selector::{
    first_ids, round_robin, ConnectionSelector, SelectionStrategy,
};
use trading_control::engine::health::health_tracker::{HealthMetrics, HealthTracker, Ranking};

const NOW: i64 = 1_700_000_000_000;

fn fresh(id: u128) -> HealthMetrics {
    HealthMetrics::new(id, "binance".to_string(), "spot".to_string(), NOW)
}

#[test]
fn fresh_connection_has_full_score() {
    let m = fresh(1);
    assert_eq!((m.health_score, m.success_rate, m.rtt_us), (100_000, 100_000, 0));
    assert!(m.is_healthy());
}

#[test]
fn score_follows_the_formula() {
    let mut m = fresh(1);
    m.update_success(120_000, NOW + 1);
    assert_eq!(m.rtt_us, 12_000);
    assert_eq!(m.success_rate, 100_000);
    // 40 for the rate, 25 for 12 ms, 20 for no failures, 10 for being fresh.
    assert_eq!(m.health_score, 95_000);
    m.update_failure(NOW + 2);
    assert_eq!((m.total_messages, m.total_errors, m.consecutive_failures), (1, 1, 1));
    assert_eq!(m.success_rate, 50_000);
    // 20 for the rate, 25 for 12 ms, 15 for one failure, 10 for being fresh.
    assert_eq!(m.health_score, 70_000);
    m.update_success(6_000_000, NOW + 3);
    assert_eq!(m.rtt_us, (12_000 * 9 + 6_000_000) / 10);
    assert_eq!(m.consecutive_failures, 0);
    assert_eq!(m.success_rate, 66_666);
    // 26.666 for the rate, 5 for 610 ms, 20 for no failures, 10 for being fresh.
    assert_eq!(m.health_score, 26_666 + 5_000 + 20_000 + 10_000);
    assert_eq!(m.last_update, NOW + 3);
}

#[test]
fn round_trip_bands() {
    for (rtt_us, points) in [
        (99_999u64, 30_000u32),
        (100_000, 25_000),
        (499_999, 25_000),
        (500_000, 20_000),
        (999_999, 20_000),
        (1_000_000, 15_000),
        (1_999_999, 15_000),
        (2_000_000, 10_000),
        (4_999_999, 10_000),
        (5_000_000, 5_000),
    ] {
        let mut m = fresh(1);
        m.update_success(rtt_us, NOW);
        assert_eq!(m.rtt_us, rtt_us / 10);
        assert_eq!(m.health_score, 40_000 + points + 20_000 + 10_000, "rtt {}", rtt_us);
    }
}

#[test]
fn failures_never_raise_the_score() {
    let mut m = fresh(1);
    m.update_success(1_000, NOW);
    m.update_success(1_000, NOW);
    let mut last = m.health_score;
    let mut scores = Vec::new();
    for i in 0..8 {
        m.update_failure(NOW + i);
        assert!(m.health_score <= last);
        assert!(m.health_score <= 100_000);
        last = m.health_score;
        scores.push(m.health_score);
    }
    assert_eq!(scores[0], 26_666 + 30_000 + 15_000 + 10_000);
    assert_eq!(scores[3], 13_333 + 30_000 + 0 + 10_000);
    assert_eq!(m.consecutive_failures, 8);
    assert!(!m.is_healthy());
    let mut healthy_by_score = fresh(2);
    for i in 0..4 {
        healthy_by_score.update_failure(NOW + i);
    }
    assert_eq!(healthy_by_score.health_score, 40_000);
    assert!(!healthy_by_score.is_healthy());
}

fn tracker_with(scores: &[(u128, u64, u32)]) -> HealthTracker {
    let mut t = HealthTracker::new();
    for (id, rtt_us, failures) in scores {
        t.register_connection(*id, "binance".to_string(), "spot".to_string(), NOW);
        t.update_success(*id, *rtt_us * 10, NOW);
        for _ in 0..*failures {
            t.update_failure(*id, NOW);
        }
    }
    t
}

#[test]
fn tracker_keeps_metrics_by_connection() {
    let mut t = tracker_with(&[(1, 1_000, 0), (2, 60_000, 1)]);
    assert_eq!(t.get_metrics(1).unwrap().health_score, 100_000);
    let two = t.get_metrics(2).unwrap();
    assert_eq!((two.total_messages, two.total_errors, two.rtt_us), (1, 1, 60_000));
    assert_eq!(two.health_score, 20_000 + 20_000 + 15_000 + 10_000);
    assert!(t.get_metrics(3).is_none());
    t.update_failure(3, NOW);
    t.update_success(3, 5, NOW);
    assert!(t.get_metrics(3).is_none());
    t.remove_connection(1);
    assert!(t.get_metrics(1).is_none());
    t.register_connection(4, "okex".to_string(), "spot".to_string(), NOW - 10_000);
    t.cleanup_stale_connections(5_000, NOW);
    assert!(t.get_metrics(4).is_none());
    assert!(t.get_metrics(2).is_some());
}

#[test]
fn healthy_connections_come_best_first() {
    let mut t = tracker_with(&[(1, 1_000, 1), (2, 1_000, 0), (3, 60_000, 0), (4, 1_000, 3), (5, 700_000, 2)]);
    t.register_connection(6, "okex".to_string(), "spot".to_string(), NOW);
    t.register_connection(7, "binance".to_string(), "futures".to_string(), NOW);
    let ids: Vec<u128> = t.get_healthy_connections("binance", "spot", 0).iter().map(|m| m.connection_id).collect();
    assert_eq!(ids, [2, 3, 1, 4]);
    let scores: Vec<u32> = t.get_healthy_connections("binance", "spot", 0).iter().map(|m| m.health_score).collect();
    assert_eq!(scores, [100_000, 90_000, 75_000, 55_000]);
    assert_eq!(t.get_metrics(5).unwrap().health_score, 38_333);
    let ids: Vec<u128> = t.get_healthy_connections("binance", "spot", 80_000).iter().map(|m| m.connection_id).collect();
    assert_eq!(ids, [2, 3]);
    let ids: Vec<u128> = t.get_top_k_connections("binance", "spot", 2).iter().map(|m| m.connection_id).collect();
    assert_eq!(ids, [2, 3]);
    let ids: Vec<u128> = t
        .get_ranked_connections("binance", "spot", 30_000, Ranking::ByLatency)
        .iter()
        .map(|m| m.connection_id)
        .collect();
    assert_eq!(ids.len(), 4);
    assert_eq!(ids[3], 3);
    assert!(t.get_healthy_connections("bybit", "spot", 0).is_empty());
}

#[test]
fn selection_by_health_and_latency() {
    let t = tracker_with(&[(1, 1_000, 1), (2, 2_000, 0), (3, 60_000, 0), (4, 500, 2)]);
    let mut by_health = ConnectionSelector::new(SelectionStrategy::HealthScore);
    assert_eq!(by_health.select_connections(&t, "binance", "spot", 2), [2, 3]);
    assert_eq!(by_health.select_connections(&t, "binance", "spot", 9), [2, 3, 1, 4]);
    assert_eq!(by_health.select_best_connection(&t, "binance", "spot"), Some(2));
    assert_eq!(by_health.select_best_connection(&t, "okex", "spot"), None);
    assert!(by_health.select_connections(&t, "binance", "spot", 0).is_empty());
    let mut by_latency = ConnectionSelector::new(SelectionStrategy::LeastLatency);
    assert_eq!(by_latency.select_connections(&t, "binance", "spot", 3), [4, 1, 2]);
    assert_eq!(by_health.get_backup_connections(&t, "binance", "spot", 2, 2), [3, 1]);
    assert_eq!(by_health.get_backup_connections(&t, "binance", "spot", 9, 2), [2, 3]);
}

#[test]
fn round_robin_goes_on_where_it_stopped() {
    let t = tracker_with(&[(1, 1_000, 0), (2, 20_000, 0), (3, 70_000, 0)]);
    let mut rr = ConnectionSelector::new(SelectionStrategy::RoundRobin);
    assert_eq!(rr.select_connections(&t, "binance", "spot", 2), [1, 2]);
    assert_eq!(rr.select_connections(&t, "binance", "spot", 2), [3, 1]);
    assert_eq!(rr.select_connections(&t, "binance", "spot", 5), [2, 3, 1]);
    assert_eq!(rr.select_connections(&t, "binance", "spot", 1), [2]);
    assert!(rr.select_connections(&t, "binance", "futures", 2).is_empty());
    let candidates = t.get_healthy_connections("binance", "spot", 0);
    assert_eq!(round_robin(&candidates, 7, 2), (vec![2, 3], 0));
    assert_eq!(first_ids(&candidates, 2), [1, 2]);
}

#[test]
fn random_selection_picks_distinct_healthy_connections() {
    let t = tracker_with(&[(1, 1_000, 0), (2, 1_000, 0), (3, 1_000, 0), (4, 1_000, 0), (5, 1_000, 4)]);
    let mut random = ConnectionSelector::new(SelectionStrategy::Random);
    let mut seen = std::collections::BTreeSet::new();
    for _ in 0..200 {
        let chosen = random.select_connections(&t, "binance", "spot", 3);
        assert_eq!(chosen.len(), 3);
        let distinct: std::collections::BTreeSet<u128> = chosen.iter().copied().collect();
        assert_eq!(distinct.len(), 3);
        assert!(chosen.iter().all(|id| (1..=4).contains(id)));
        seen.insert(chosen);
    }
    assert!(seen.len() > 1);
    let mut all = random.select_connections(&t, "binance", "spot", 10);
    all.sort();
    assert_eq!(all, [1, 2, 3, 4]);
}
