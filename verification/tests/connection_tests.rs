use trading_control::engine::adapters::adapter::AdapterKind;
use trading_control::engine::config::{
    ExchangeConfig, ExchangeEndpointConfig, ExecutorConfig, IpcConfig, TradingEngineConfig,
    WsPoolConfig,
};
use trading_control::engine::ws_pool::binance_connection::BinanceConnection;
use trading_control::engine::ws_pool::connection::{
    BaseConnection, ConnectionCommand, ConnectionState, ConnectionStats,
};
use trading_control::engine::ws_pool::keepalive::{
    step, Frame, KeepalivePolicy, KeepaliveStyle, Next, Outbound, Reaction, RunnerEvent,
    RunnerState, ASSUMED_RTT_US, RECONNECT_DELAY_MS,
};
use trading_control::engine::ws_pool::message::WsMessage;
use trading_control::engine::ws_pool::okex_connection::OkexConnection;
use trading_control::engine::ws_pool::pool::{
    keepalive_policy, planned_connections, runner_for, subscription_message,
};

const T0: i64 = 1_700_000_000_000;

fn go_on() -> Reaction {
    Reaction { outbound: Outbound::Nothing, forward: false, next: Next::Continue }
}

fn hand_on() -> Reaction {
    Reaction { outbound: Outbound::Nothing, forward: true, next: Next::Continue }
}

fn start_over(close: bool) -> Reaction {
    Reaction {
        outbound: if close { Outbound::Close } else { Outbound::Nothing },
        forward: false,
        next: Next::Reconnect { delay_ms: 5_000 },
    }
}

fn connected(policy: &KeepalivePolicy, now: i64) -> RunnerState {
    let (s, r) = step(policy, RunnerState::new(), &RunnerEvent::Start, now);
    assert_eq!(r.next, Next::Connect);
    assert_eq!(s.state, ConnectionState::Connecting);
    let (s, r) = step(policy, s, &RunnerEvent::ConnectSucceeded, now);
    assert_eq!(r, Reaction { outbound: Outbound::Subscription, forward: false, next: Next::Continue });
    assert_eq!(s.state, ConnectionState::Connected);
    s
}

fn base(exchange: &str) -> BaseConnection {
    BaseConnection::new(7, exchange.to_string(), "spot".to_string(), "wss://example".to_string())
}

#[test]
fn keepalive_of_each_exchange() {
    assert_eq!(
        KeepalivePolicy::binance(),
        KeepalivePolicy { style: KeepaliveStyle::ServerPings, interval_ms: 180_000, grace_ms: 5_000 }
    );
    assert_eq!(
        KeepalivePolicy::okx(),
        KeepalivePolicy { style: KeepaliveStyle::ClientPings, interval_ms: 25_000, grace_ms: 0 }
    );
    assert_eq!(
        KeepalivePolicy::bybit(),
        KeepalivePolicy { style: KeepaliveStyle::ClientPings, interval_ms: 20_000, grace_ms: 0 }
    );
    assert_eq!(KeepalivePolicy::binance().deadline(T0), T0 + 185_000);
    assert_eq!(KeepalivePolicy::okx().deadline(T0), T0 + 25_000);
    assert_eq!(KeepalivePolicy::bybit().deadline(i64::MAX - 5), i64::MAX);
    assert_eq!((RECONNECT_DELAY_MS, ASSUMED_RTT_US), (5_000, 20_000));
}

#[test]
fn binance_runner_answers_pings_and_gives_up_when_one_is_overdue() {
    let policy = KeepalivePolicy::binance();
    let s = connected(&policy, T0);
    assert_eq!(s.deadline, T0 + 185_000);
    let (s, r) = step(&policy, s, &RunnerEvent::FrameReceived(Frame::Ping(vec![1, 2])), T0 + 1_000);
    assert_eq!(r, Reaction { outbound: Outbound::PongEcho, forward: false, next: Next::Continue });
    assert_eq!((s.deadline, s.stats.total_messages), (T0 + 186_000, 0));
    let (s, r) = step(&policy, s, &RunnerEvent::FrameReceived(Frame::Text("{}".to_string())), T0 + 2_000);
    assert_eq!(r, hand_on());
    assert_eq!((s.deadline, s.stats.total_messages, s.stats.success_rate), (T0 + 187_000, 1, 100_000));
    assert_eq!(s.stats.last_message_time, Some(T0 + 2_000));
    let (s, r) = step(&policy, s, &RunnerEvent::FrameReceived(Frame::Binary(vec![9])), T0 + 3_000);
    assert_eq!(r, hand_on());
    assert_eq!(s.stats.total_messages, 2);
    let (s, r) = step(&policy, s, &RunnerEvent::FrameReceived(Frame::Pong(vec![])), T0 + 4_000);
    assert_eq!(r, go_on());
    assert_eq!((s.stats.rtt_us, s.deadline), (20_000, T0 + 189_000));
    let (s, r) = step(&policy, s, &RunnerEvent::FrameReceived(Frame::Other), T0 + 5_000);
    assert_eq!((r, s.deadline), (go_on(), T0 + 190_000));
    let (s, r) = step(&policy, s, &RunnerEvent::Command(ConnectionCommand::SendMessage(vec![1])), T0 + 6_000);
    assert_eq!(r, Reaction { outbound: Outbound::Payload, forward: false, next: Next::Continue });
    assert_eq!(s.deadline, T0 + 190_000);
    let (s, r) = step(&policy, s, &RunnerEvent::TimerFired, T0 + 190_000);
    assert_eq!(r, start_over(true));
    assert_eq!(s.state, ConnectionState::Disconnected);
    let (s, r) = step(&policy, s, &RunnerEvent::TimerFired, T0 + 190_001);
    assert_eq!((r, s.state), (go_on(), ConnectionState::Disconnected));
    let (s, r) = step(&policy, s, &RunnerEvent::Start, T0 + 195_000);
    assert_eq!((r.next, s.state), (Next::Connect, ConnectionState::Connecting));
    assert_eq!(s.stats.total_messages, 2);
}

#[test]
fn client_pings_and_gives_up_when_the_pong_is_overdue() {
    for policy in [KeepalivePolicy::okx(), KeepalivePolicy::bybit()] {
        let every = policy.interval_ms;
        let s = connected(&policy, T0);
        assert_eq!((s.deadline, s.waiting_pong), (T0 + every, false));
        let (s, r) = step(&policy, s, &RunnerEvent::TimerFired, T0 + every);
        assert_eq!(r, Reaction { outbound: Outbound::Ping, forward: false, next: Next::Continue });
        assert_eq!((s.deadline, s.waiting_pong), (T0 + 2 * every, true));
        // Other traffic does not stand for the pong.
        let (s, r) = step(&policy, s, &RunnerEvent::FrameReceived(Frame::Text("{\"a\":1}".to_string())), T0 + every + 5);
        assert_eq!(r, hand_on());
        assert_eq!((s.deadline, s.waiting_pong, s.stats.total_messages), (T0 + 2 * every, true, 1));
        let (s, r) = step(&policy, s, &RunnerEvent::FrameReceived(Frame::Text("pong".to_string())), T0 + every + 10);
        assert_eq!(r, go_on());
        assert_eq!((s.deadline, s.waiting_pong, s.stats.total_messages), (T0 + 2 * every + 10, false, 1));
        let (s, _) = step(&policy, s, &RunnerEvent::TimerFired, T0 + 2 * every + 10);
        assert!(s.waiting_pong);
        let (s, r) = step(&policy, s, &RunnerEvent::TimerFired, T0 + 3 * every + 10);
        assert_eq!(r, start_over(true));
        assert_eq!((s.state, s.waiting_pong), (ConnectionState::Disconnected, false));
    }
}

#[test]
fn runner_ends_and_starts_over() {
    let policy = KeepalivePolicy::okx();
    for (event, reaction, errors) in [
        (RunnerEvent::FrameReceived(Frame::Close), start_over(false), 0),
        (RunnerEvent::ReadFailed, start_over(false), 1),
        (RunnerEvent::SendFailed, start_over(false), 0),
        (RunnerEvent::ForwardFailed, start_over(false), 0),
        (RunnerEvent::SubscribeFailed, start_over(false), 0),
        (RunnerEvent::Command(ConnectionCommand::Disconnect), start_over(true), 0),
    ] {
        let (s, r) = step(&policy, connected(&policy, T0), &event, T0 + 1);
        assert_eq!(r, reaction, "{:?}", event);
        assert_eq!((s.state, s.stats.total_errors), (ConnectionState::Disconnected, errors));
    }
    let (s, r) = step(&policy, connected(&policy, T0), &RunnerEvent::ShutdownChanged(true), T0);
    assert_eq!(r, Reaction { outbound: Outbound::Close, forward: false, next: Next::Stop });
    assert_eq!(s.state, ConnectionState::Disconnected);
    let (s, r) = step(&policy, connected(&policy, T0), &RunnerEvent::ShutdownChanged(false), T0);
    assert_eq!((r, s.state), (go_on(), ConnectionState::Connected));

    let (connecting, _) = step(&policy, RunnerState::new(), &RunnerEvent::Start, T0);
    let (s, r) = step(&policy, connecting, &RunnerEvent::ConnectFailed, T0);
    assert_eq!((r, s.state), (start_over(false), ConnectionState::Error));
    let (s, r) = step(&policy, s, &RunnerEvent::Start, T0 + 5_000);
    assert_eq!((r.next, s.state), (Next::Connect, ConnectionState::Connecting));
    let (s, r) = step(&policy, s, &RunnerEvent::ShutdownChanged(true), T0 + 5_000);
    assert_eq!((r.next, r.outbound, s.state), (Next::Stop, Outbound::Nothing, ConnectionState::Disconnected));
    let (s, r) = step(&policy, s, &RunnerEvent::ShutdownChanged(true), T0 + 5_000);
    assert_eq!((r.next, s.state), (Next::Stop, ConnectionState::Disconnected));
    let (s, r) = step(&policy, s, &RunnerEvent::FrameReceived(Frame::Text("late".to_string())), T0);
    assert_eq!((r, s.stats.total_messages), (go_on(), 0));
}

#[test]
fn connections_run_the_keepalive_of_their_exchange() {
    let mut binance = BinanceConnection::new(base("binance"));
    assert_eq!((binance.ping_interval_ms, binance.delay_interval_ms), (180_000, 5_000));
    assert_eq!(binance.base.id(), 7);
    assert_eq!((binance.base.exchange(), binance.base.market_type()), ("binance", "spot"));
    assert_eq!(binance.base.state(), ConnectionState::Disconnected);
    assert_eq!(binance.handle(&RunnerEvent::Start, T0).next, Next::Connect);
    assert_eq!(binance.handle(&RunnerEvent::ConnectSucceeded, T0).outbound, Outbound::Subscription);
    assert_eq!(binance.base.state(), ConnectionState::Connected);
    assert_eq!(binance.runner.deadline, T0 + 185_000);
    assert_eq!(binance.handle(&RunnerEvent::FrameReceived(Frame::Ping(vec![])), T0 + 1).outbound, Outbound::PongEcho);
    assert!(binance.handle(&RunnerEvent::FrameReceived(Frame::Text("x".to_string())), T0 + 2).forward);
    assert_eq!(binance.base.stats().total_messages, 1);
    assert_eq!(binance.handle(&RunnerEvent::TimerFired, T0 + 3), start_over(true));
    assert_eq!(binance.base.state(), ConnectionState::Disconnected);

    let mut okex = OkexConnection::new(base("okex"));
    okex.handle(&RunnerEvent::Start, T0);
    okex.handle(&RunnerEvent::ConnectSucceeded, T0);
    assert_eq!(okex.runner.deadline, T0 + 25_000);
    assert_eq!(okex.handle(&RunnerEvent::TimerFired, T0 + 25_000).outbound, Outbound::Ping);
    assert_eq!(okex.handle(&RunnerEvent::FrameReceived(Frame::Text("pong".to_string())), T0 + 25_001), go_on());
    assert_eq!(okex.handle(&RunnerEvent::ReadFailed, T0 + 25_002), start_over(false));
    assert_eq!(okex.base.stats().total_errors, 1);
    assert_eq!(okex.base.stats().last_error_time, Some(T0 + 25_002));
    assert_eq!(okex.base.state(), ConnectionState::Disconnected);
}

#[test]
fn connection_score_adds_state_rate_rtt_and_recency() {
    let mut c = base("binance");
    // Disconnected, full rate, no round trip measured, no message.
    assert_eq!(c.health_score(T0), 10_000 + 30_000 + 20_000);
    c.set_state(ConnectionState::Connecting);
    assert_eq!(c.health_score(T0), 20_000 + 30_000 + 20_000);
    c.set_state(ConnectionState::Error);
    assert_eq!(c.health_score(T0), 30_000 + 20_000);
    c.set_state(ConnectionState::Connected);
    assert_eq!(c.health_score(T0), 90_000);
    c.stats.note_message(T0, true);
    assert_eq!(c.health_score(T0 + 59_999), 100_000);
    assert_eq!(c.health_score(T0 + 60_000), 95_000);
    assert_eq!(c.health_score(T0 + 299_999), 95_000);
    assert_eq!(c.health_score(T0 + 300_000), 90_000);
    for (rtt_us, points) in [(9_999, 20_000), (10_000, 15_000), (49_999, 15_000), (50_000, 10_000), (100_000, 5_000), (499_999, 5_000), (500_000, 0)] {
        c.stats.rtt_us = rtt_us;
        assert_eq!(c.health_score(T0 + 400_000), 40_000 + 30_000 + points, "{}", rtt_us);
    }
    c.stats.note_error(T0 + 1);
    c.stats.note_message(T0 + 2, false);
    assert_eq!(c.stats.success_rate, 100_000);
    c.stats.note_message(T0 + 3, true);
    assert_eq!(c.stats.success_rate, 75_000);
    assert_eq!((c.stats.total_messages, c.stats.total_errors), (3, 1));
    assert_eq!(c.health_score(T0 + 400_000), 40_000 + 22_500);
    c.stats = ConnectionStats { success_rate: u32::MAX, ..c.stats };
    assert_eq!(c.health_score(T0), 100_000);
}

#[test]
fn message_is_stamped_with_the_time_it_came() {
    let m = WsMessage::new(1, "okex".to_string(), "swap".to_string(), 7, vec![1, 2, 3], T0);
    assert_eq!((m.id, m.connection_id, m.timestamp), (1, 7, T0));
    assert_eq!((m.exchange.as_str(), m.market_type.as_str(), m.data.as_slice()), ("okex", "swap", &[1u8, 2, 3][..]));
}

fn market(enabled: bool, urls: &[&str], count: usize) -> ExchangeEndpointConfig {
    ExchangeEndpointConfig {
        enabled,
        ws_endpoints: urls.iter().map(|u| u.to_string()).collect(),
        rest_endpoint: "https://example".to_string(),
        connection_count: count,
    }
}

fn exchange(enabled: bool, spot: ExchangeEndpointConfig, futures: ExchangeEndpointConfig) -> ExchangeConfig {
    ExchangeConfig { enabled, spot, futures, api_key: "k".to_string(), secret_key: "s".to_string() }
}

#[test]
fn pool_opens_what_the_configuration_asks_for() {
    let config = TradingEngineConfig {
        exchanges: vec![
            ("binance".to_string(), exchange(true, market(true, &["a", "b"], 2), market(true, &["c"], 1))),
            ("okex".to_string(), exchange(false, market(true, &["d"], 3), market(true, &["e"], 3))),
            ("bybit".to_string(), exchange(true, market(false, &["f"], 3), market(true, &["g"], 2))),
            ("kraken".to_string(), exchange(true, market(true, &["h"], 1), market(true, &[], 5))),
            ("okex".to_string(), exchange(true, market(true, &["i"], 0), market(true, &["j"], 1))),
        ],
        ws_pool: WsPoolConfig {
            max_connections_per_exchange: 10,
            heartbeat_interval_ms: 1_000,
            reconnect_delay_ms: 5_000,
            max_reconnect_attempts: 3,
            health_check_interval_ms: 1_000,
            message_buffer_size: 16,
        },
        executor: ExecutorConfig {
            order_timeout_ms: 500,
            max_retry_attempts: 3,
            concurrent_send_count: 3,
            idempotent_key_prefix: "TE".to_string(),
        },
        ipc: IpcConfig {
            service_name: "engine".to_string(),
            input_topic: "engine/commands".to_string(),
            output_topic: "engine/responses".to_string(),
            buffer_size: 4096,
        },
    };
    let plan: Vec<(String, String, String, Option<AdapterKind>)> = planned_connections(&config)
        .into_iter()
        .map(|c| (c.exchange, c.market_type, c.url, c.runner))
        .collect();
    let expected: Vec<(String, String, String, Option<AdapterKind>)> = [
        ("binance", "spot", "a", Some(AdapterKind::Binance)),
        ("binance", "spot", "a", Some(AdapterKind::Binance)),
        ("binance", "spot", "b", Some(AdapterKind::Binance)),
        ("binance", "spot", "b", Some(AdapterKind::Binance)),
        ("binance", "futures", "c", Some(AdapterKind::Binance)),
        ("bybit", "futures", "g", Some(AdapterKind::Bybit)),
        ("bybit", "futures", "g", Some(AdapterKind::Bybit)),
        ("kraken", "spot", "h", None),
        ("okex", "futures", "j", Some(AdapterKind::Okex)),
    ]
    .iter()
    .map(|(e, m, u, k)| (e.to_string(), m.to_string(), u.to_string(), *k))
    .collect();
    assert_eq!(plan, expected);
    let none = TradingEngineConfig { exchanges: vec![], ..config };
    assert!(planned_connections(&none).is_empty());
}

#[test]
fn each_exchange_has_its_subscription_and_keepalive() {
    assert_eq!(runner_for("binance"), Some(AdapterKind::Binance));
    assert_eq!(runner_for("okex"), Some(AdapterKind::Okex));
    assert_eq!(runner_for("bybit"), Some(AdapterKind::Bybit));
    assert_eq!(runner_for("Binance"), None);
    let binance: serde_json::Value = serde_json::from_str(subscription_message(AdapterKind::Binance)).unwrap();
    assert_eq!(binance["method"].as_str(), Some("SUBSCRIBE"));
    assert_eq!(binance["id"].as_i64(), Some(1));
    assert_eq!(binance["params"].as_array().map(|a| a.len()), Some(0));
    for kind in [AdapterKind::Okex, AdapterKind::Bybit] {
        let other: serde_json::Value = serde_json::from_str(subscription_message(kind)).unwrap();
        assert_eq!(other["op"].as_str(), Some("subscribe"));
        assert_eq!(other["args"].as_array().map(|a| a.len()), Some(0));
        assert_eq!(serde_json::to_string(&other).unwrap(), subscription_message(kind));
    }
    assert_eq!(serde_json::to_string(&binance).unwrap(), subscription_message(AdapterKind::Binance));
    assert_eq!(keepalive_policy(AdapterKind::Binance), KeepalivePolicy::binance());
    assert_eq!(keepalive_policy(AdapterKind::Okex), KeepalivePolicy::okx());
    assert_eq!(keepalive_policy(AdapterKind::Bybit), KeepalivePolicy::bybit());
}
