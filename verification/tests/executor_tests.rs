use hmac::{Hmac, Mac};
use sha2::Sha256;
use trading_control::common::decimal::Decimal;
use trading_control::engine::adapters::adapter::{AdapterKind, AdapterTrait, ExchangeAdapter};
use trading_control::engine::adapters::binance::BinanceAdapter;
use trading_control::engine::adapters::bybit::BybitAdapter;
use trading_control::engine::adapters::okex::OkexAdapter;
use trading_control::engine::adapters::replies::{
    BinanceReply, BybitAck, BybitReply, OkexAck, OkexReply, ReplyError,
};
use trading_control::engine::config::ExecutorConfig;
use trading_control::engine::executor::executor::{
    OrderExecutor, Prepared, RetryStep, SendOutcome, DEDUP_WINDOW_MS,
};
use trading_control::engine::executor::idempotent::IdempotentManager;
use trading_control::engine::executor::order_builder::OrderBuilder;
use trading_control::engine::executor::response_handler::{
    ReplyFields, ResponseError, ResponseHandler,
};
use trading_control::engine::executor::signer::{
    keys_ascending, query_string, stands_before, Signer,
};
use trading_control::engine::executor::types::{
    ExecutionCommand, OrderResponse, OrderSide, OrderStatus, OrderType, TimeInForce,
};
use trading_control::engine::health::connection_selector::{ConnectionSelector, SelectionStrategy};
use trading_control::engine::health::health_tracker::HealthTracker;

const NOW: i64 = 1_700_000_000_000;
const COMMAND_ID: u128 = 0xa1a2a3a4_b1b2_c1c2_d1d2_d3d4d5d6d7d8;

fn dec(mantissa: i128, scale: u32) -> Decimal {
    Decimal::new(mantissa, scale).unwrap()
}

fn command(id: u128) -> ExecutionCommand {
    ExecutionCommand {
        id,
        exchange: "binance".to_string(),
        market_type: "spot".to_string(),
        symbol: "BTCUSDT".to_string(),
        side: OrderSide::Sell,
        order_type: OrderType::Limit,
        quantity: dec(15, 1),
        price: Some(dec(1005, 1)),
        time_in_force: TimeInForce::GTC,
        client_order_id: None,
        reduce_only: false,
        post_only: true,
    }
}

fn executor(count: usize) -> OrderExecutor {
    let config = ExecutorConfig {
        order_timeout_ms: 500,
        max_retry_attempts: 3,
        concurrent_send_count: count,
        idempotent_key_prefix: "TE".to_string(),
    };
    let mut e = OrderExecutor::new(config, ConnectionSelector::new(SelectionStrategy::HealthScore));
    e.register_signer("binance".to_string(), "key".to_string(), "secret".to_string());
    e
}

fn tracker(n: u128) -> HealthTracker {
    let mut t = HealthTracker::new();
    for id in 1..=n {
        t.register_connection(id, "binance".to_string(), "spot".to_string(), NOW);
        t.update_success(id, (id as u64) * 1_000, NOW);
    }
    t
}

fn response(status: OrderStatus, error: Option<&str>, order_id: &str) -> OrderResponse {
    OrderResponse {
        order_id: order_id.to_string(),
        client_order_id: "c".to_string(),
        symbol: "BTCUSDT".to_string(),
        status,
        executed_qty: Decimal::zero(),
        executed_price: None,
        timestamp: NOW,
        error: error.map(|e| e.to_string()),
    }
}

fn expected_hmac(key: &str, message: &str) -> Vec<u8> {
    let mut mac = Hmac::<Sha256>::new_from_slice(key.as_bytes()).unwrap();
    mac.update(message.as_bytes());
    mac.finalize().into_bytes().to_vec()
}

#[test]
fn client_order_ids_are_prefix_uuid_and_time() {
    let mut m = IdempotentManager::new("TE".to_string());
    assert_eq!(
        m.mint_client_order_id(COMMAND_ID, NOW),
        "TE_a1a2a3a4-b1b2-c1c2-d1d2-d3d4d5d6d7d8_1700000000000"
    );
    assert_eq!(
        m.mint_client_order_id(0, -5),
        "TE_00000000-0000-0000-0000-000000000000_-5"
    );
    assert_eq!(
        m.mint_client_order_id(u128::MAX, i64::MIN),
        "TE_ffffffff-ffff-ffff-ffff-ffffffffffff_-9223372036854775808"
    );
    assert!(!m.is_duplicate("TE_x"));
    let id = m.generate_client_order_id(COMMAND_ID, NOW);
    assert!(m.is_duplicate(&id));
    assert!(!m.claim(&id, NOW));
    assert!(m.claim("other", NOW + 10));
    assert!(!m.claim("other", NOW + 20));
    m.cleanup_old_ids(5, NOW + 10);
    assert!(!m.is_duplicate(&id));
    assert!(m.is_duplicate("other"));
    m.cleanup_old_ids(5, NOW + 15);
    assert!(m.is_duplicate("other"));
    m.cleanup_old_ids(5, NOW + 16);
    assert!(!m.is_duplicate("other"));
}

#[test]
fn signatures_are_hmac_sha256_of_what_the_exchange_wants() {
    let signer = Signer::new("key".to_string(), "key".to_string());
    assert_eq!(signer.api_key(), "key");
    // The well-known code of the quick brown fox under the key "key".
    let fox = "f7bc83f430538424b13298e6aa6fb143ef4d59a14946175997479dbc2d1a3cd8";
    let params = vec![("The quick brown fox jumps over the lazy dog".to_string(), String::new())];
    assert_eq!(
        signer.sign_binance(&params),
        hex::encode(expected_hmac("key", "The quick brown fox jumps over the lazy dog="))
    );
    assert_eq!(
        signer.sign_okex("The quick brown fox ", "jumps over ", "the lazy ", "dog"),
        "97yD9DBThCSxMpjmqm+xQ+9NWaFJRhdZl0edvC0aPNg="
    );
    assert_eq!(hex::encode(expected_hmac("key", "The quick brown fox jumps over the lazy dog")), fox);
    let two = vec![("a".to_string(), "1".to_string()), ("b".to_string(), "x y".to_string())];
    assert_eq!(query_string(&two), "a=1&b=x y");
    assert_eq!(query_string(&Vec::new()), "");
    assert_eq!(signer.sign_bybit(&two), hex::encode(expected_hmac("key", "a=1&b=x y")));
    assert_eq!(signer.sign_bybit(&two).len(), 64);
    assert_ne!(signer.sign_binance(&two), Signer::new("key".to_string(), "other".to_string()).sign_binance(&two));
}

#[test]
fn request_carries_sorted_parameters_and_signature() {
    let builder = OrderBuilder::new("binance".to_string());
    let cmd = command(COMMAND_ID);
    let params = builder.build_params(&cmd, "cid-1", NOW);
    let keys: Vec<&str> = params.iter().map(|p| p.0.as_str()).collect();
    assert_eq!(
        keys,
        ["newClientOrderId", "postOnly", "price", "quantity", "side", "symbol", "timeInForce", "timestamp", "type"]
    );
    let mut sorted = keys.clone();
    sorted.sort();
    assert_eq!(keys, sorted);
    let values: Vec<&str> = params.iter().map(|p| p.1.as_str()).collect();
    assert_eq!(values, ["cid-1", "true", "100.5", "1.5", "SELL", "BTCUSDT", "GTC", "1700000000000", "LIMIT"]);
    let mut market = command(COMMAND_ID);
    market.price = None;
    market.post_only = false;
    market.reduce_only = true;
    let keys: Vec<String> = builder.build_params(&market, "cid-1", NOW).into_iter().map(|p| p.0).collect();
    assert_eq!(keys, ["newClientOrderId", "quantity", "reduceOnly", "side", "symbol", "timeInForce", "timestamp", "type"]);

    let signer = Signer::new("key".to_string(), "secret".to_string());
    let request = builder.build_order_request(&cmd, "cid-1".to_string(), &signer, NOW);
    let query = "newClientOrderId=cid-1&postOnly=true&price=100.5&quantity=1.5&side=SELL&symbol=BTCUSDT&timeInForce=GTC&timestamp=1700000000000&type=LIMIT";
    assert_eq!(request.signature, hex::encode(expected_hmac("secret", query)));
    assert_eq!((request.client_order_id.as_str(), request.timestamp), ("cid-1", NOW));
    assert_eq!(request.quantity, dec(15, 1));

    let okex = OrderBuilder::new("okex".to_string()).build_order_request(&cmd, "cid-1".to_string(), &signer, NOW);
    let body = "{\"newClientOrderId\":\"cid-1\",\"postOnly\":\"true\",\"price\":\"100.5\",\"quantity\":\"1.5\",\"side\":\"SELL\",\"symbol\":\"BTCUSDT\",\"timeInForce\":\"GTC\",\"timestamp\":\"1700000000000\",\"type\":\"LIMIT\"}";
    let message = format!("1700000000000POST/api/v5/trade/order{}", body);
    assert_eq!(
        okex.signature,
        base64::Engine::encode(&base64::engine::general_purpose::STANDARD, expected_hmac("secret", &message))
    );
    let bybit = OrderBuilder::new("bybit".to_string()).build_order_request(&cmd, "cid-1".to_string(), &signer, NOW);
    assert_eq!(bybit.signature, request.signature);
    let other = OrderBuilder::new("kraken".to_string()).build_order_request(&cmd, "cid-1".to_string(), &signer, NOW);
    assert_eq!(other.signature, "");
    assert_eq!(builder.format_side(OrderSide::Buy), "BUY");
    assert_eq!(builder.format_order_type(OrderType::StopLimit), "STOP_LIMIT");
    assert_eq!(builder.format_time_in_force(TimeInForce::FOK), "FOK");
}

#[test]
fn best_response_is_the_one_worth_most() {
    let handler = ResponseHandler::new("binance".to_string());
    let responses = vec![
        response(OrderStatus::Rejected, None, "a"),
        response(OrderStatus::Filled, Some("boom"), "b"),
        response(OrderStatus::New, None, "c"),
        response(OrderStatus::Canceled, None, "d"),
        response(OrderStatus::New, None, "e"),
        response(OrderStatus::Expired, None, "f"),
    ];
    assert_eq!(handler.select_best_response(&responses).unwrap().order_id, "e");
    assert!(handler.select_best_response(&Vec::new()).is_none());
    assert!(handler.select_best_response(&vec![response(OrderStatus::Filled, Some("x"), "a")]).is_none());
    let ranked = [
        OrderStatus::Rejected,
        OrderStatus::Expired,
        OrderStatus::Canceled,
        OrderStatus::New,
        OrderStatus::PartiallyFilled,
        OrderStatus::Filled,
    ];
    for (i, better) in ranked.iter().enumerate() {
        for worse in &ranked[..i] {
            let both = vec![response(*better, None, "better"), response(*worse, None, "worse")];
            assert_eq!(handler.select_best_response(&both).unwrap().order_id, "better");
        }
    }
}

#[test]
fn binance_replies_become_responses() {
    let handler = ResponseHandler::new("binance".to_string());
    for (name, status) in [
        ("NEW", OrderStatus::New),
        ("PARTIALLY_FILLED", OrderStatus::PartiallyFilled),
        ("FILLED", OrderStatus::Filled),
        ("CANCELED", OrderStatus::Canceled),
        ("REJECTED", OrderStatus::Rejected),
        ("EXPIRED", OrderStatus::Expired),
        ("whatever", OrderStatus::New),
    ] {
        assert_eq!(handler.parse_binance_status(name), status);
    }
    let fields = ReplyFields {
        is_error: false,
        error_message: None,
        order_id: Some(12345),
        client_order_id: Some("cid".to_string()),
        symbol: Some("BTCUSDT".to_string()),
        status: Some("FILLED".to_string()),
        executed_qty: Some(dec(15, 1)),
        price: None,
        transact_time: None,
    };
    let r = handler.parse_response(&fields, NOW).unwrap();
    assert_eq!((r.order_id.as_str(), r.client_order_id.as_str(), r.symbol.as_str()), ("12345", "cid", "BTCUSDT"));
    assert_eq!((r.status, r.executed_qty, r.executed_price, r.timestamp), (OrderStatus::Filled, dec(15, 1), None, NOW));
    assert!(r.error.is_none());
    let failed = ReplyFields { is_error: true, error_message: Some("no funds".to_string()), ..fields };
    let r = handler.parse_response(&failed, NOW).unwrap();
    assert_eq!((r.status, r.error.as_deref(), r.order_id.as_str()), (OrderStatus::Rejected, Some("no funds"), ""));
    let silent = ReplyFields { error_message: None, ..failed };
    assert_eq!(handler.parse_response(&silent, NOW).unwrap().error.as_deref(), Some("Unknown error"));
    assert_eq!(
        ResponseHandler::new("okex".to_string()).parse_response(&silent, NOW).err(),
        Some(ResponseError::UnsupportedExchange)
    );
}

#[test]
fn happy_open_goes_out_to_the_three_best_of_five() {
    let mut e = executor(3);
    let t = tracker(5);
    let cmd = command(COMMAND_ID);
    let dispatch = match e.prepare(&t, &cmd, NOW) {
        Prepared::Send(d) => d,
        Prepared::Rejected(r) => panic!("rejected: {:?}", r.error),
    };
    assert_eq!(dispatch.connection_ids.len(), 3);
    let mut distinct = dispatch.connection_ids.clone();
    distinct.sort();
    distinct.dedup();
    assert_eq!(distinct.len(), 3);
    assert!(dispatch.connection_ids.iter().all(|id| (1..=5).contains(id)));
    assert_eq!(
        dispatch.request.client_order_id,
        "TE_a1a2a3a4-b1b2-c1c2-d1d2-d3d4d5d6d7d8_1700000000000"
    );
    assert_eq!(dispatch.request.signature.len(), 64);
    let responses: Vec<OrderResponse> =
        dispatch.connection_ids.iter().map(|_| response(OrderStatus::New, None, "x")).collect();
    let result = OrderExecutor::complete(cmd.id, "binance", responses);
    assert!(result.success);
    assert!(result.error.is_none());
    assert_eq!(result.responses.len(), 3);
    assert_eq!(result.selected_response.unwrap().status, OrderStatus::New);
    assert_eq!(result.command_id, COMMAND_ID);
}

#[test]
fn duplicate_command() {
    let mut e = executor(3);
    let t = tracker(5);
    let cmd = command(COMMAND_ID);
    assert!(matches!(e.prepare(&t, &cmd, NOW), Prepared::Send(_)));
    match e.prepare(&t, &cmd, NOW + 70_000) {
        Prepared::Rejected(r) => {
            assert!(!r.success);
            assert_eq!(r.error.as_deref(), Some("Duplicate order"));
            assert!(r.responses.is_empty() && r.selected_response.is_none());
            assert_eq!(r.command_id, COMMAND_ID);
        }
        Prepared::Send(_) => panic!("sent twice"),
    }
    assert!(matches!(e.prepare(&t, &command(COMMAND_ID + 1), NOW), Prepared::Send(_)));
    assert!(matches!(e.prepare(&t, &cmd, NOW + 80_000), Prepared::Rejected(_)));
    assert!(e.has_taken(COMMAND_ID) && e.has_taken(COMMAND_ID + 1) && !e.has_taken(COMMAND_ID + 2));
    e.forget(DEDUP_WINDOW_MS, NOW + 60_000);
    assert!(matches!(e.prepare(&t, &cmd, NOW + 60_000), Prepared::Rejected(_)));
    e.forget(DEDUP_WINDOW_MS, NOW + 60_001);
    assert!(!e.has_taken(COMMAND_ID) && !e.has_taken(COMMAND_ID + 1));
    assert!(matches!(e.prepare(&t, &cmd, NOW + 80_001), Prepared::Send(_)));

    let mut chosen_id = command(7);
    chosen_id.client_order_id = Some("mine".to_string());
    match e.prepare(&t, &chosen_id, NOW) {
        Prepared::Send(d) => assert_eq!(d.request.client_order_id, "mine"),
        Prepared::Rejected(_) => panic!("rejected"),
    }
    let mut same_chosen_id = command(8);
    same_chosen_id.client_order_id = Some("mine".to_string());
    assert!(matches!(e.prepare(&t, &same_chosen_id, NOW), Prepared::Rejected(_)));
}

#[test]
fn commands_without_signer_or_connection_are_rejected() {
    let mut e = executor(3);
    let t = tracker(5);
    let mut okex = command(1);
    okex.exchange = "okex".to_string();
    match e.prepare(&t, &okex, NOW) {
        Prepared::Rejected(r) => assert_eq!(r.error.as_deref(), Some("No signer for okex")),
        Prepared::Send(_) => panic!("sent"),
    }
    let mut futures = command(2);
    futures.market_type = "futures".to_string();
    match e.prepare(&t, &futures, NOW) {
        Prepared::Rejected(r) => assert_eq!(r.error.as_deref(), Some("No healthy connections")),
        Prepared::Send(_) => panic!("sent"),
    }
    match e.prepare(&HealthTracker::new(), &command(3), NOW) {
        Prepared::Rejected(r) => assert_eq!(r.error.as_deref(), Some("No healthy connections")),
        Prepared::Send(_) => panic!("sent"),
    }
}

#[test]
fn outcome_of_a_command_follows_the_best_response() {
    let failed = OrderExecutor::complete(1, "binance", vec![response(OrderStatus::Rejected, None, "a")]);
    assert!(!failed.success);
    assert_eq!(failed.error.as_deref(), Some("Order execution failed"));
    assert_eq!(failed.selected_response.unwrap().status, OrderStatus::Rejected);
    let none = OrderExecutor::complete(1, "binance", vec![]);
    assert!(!none.success && none.selected_response.is_none());
    let mixed = OrderExecutor::complete(
        1,
        "binance",
        vec![response(OrderStatus::Canceled, None, "a"), response(OrderStatus::PartiallyFilled, None, "b")],
    );
    assert!(mixed.success);
    assert_eq!(mixed.selected_response.unwrap().order_id, "b");
    assert_eq!(OrderExecutor::exhausted(9).error.as_deref(), Some("Max retry attempts exceeded"));
    assert!(OrderExecutor::answers(&response(OrderStatus::New, None, "a"), "c"));
    assert!(!OrderExecutor::answers(&response(OrderStatus::New, None, "a"), "d"));
    assert!(OrderExecutor::answers(&response(OrderStatus::Rejected, Some("no"), "a"), "d"));
}

#[test]
fn sends_feed_the_health_of_their_connections() {
    let mut t = tracker(2);
    OrderExecutor::record_outcome(&mut t, 1, SendOutcome::Delivered { rtt_us: 50_000 }, NOW + 1);
    assert_eq!(t.get_metrics(1).unwrap().total_messages, 2);
    let before = t.get_metrics(2).unwrap().health_score;
    OrderExecutor::record_outcome(&mut t, 2, SendOutcome::TimedOut, NOW + 1);
    OrderExecutor::record_outcome(&mut t, 2, SendOutcome::Failed, NOW + 2);
    let after = t.get_metrics(2).unwrap();
    assert_eq!((after.total_errors, after.consecutive_failures), (2, 2));
    assert!(after.health_score < before);
}

#[test]
fn retries_back_off_by_a_tenth_of_a_second_each() {
    let e = executor(3);
    assert_eq!(e.next_retry_step(0, true), RetryStep::Done);
    assert_eq!(e.next_retry_step(0, false), RetryStep::RetryAfter { backoff_ms: 100 });
    assert_eq!(e.next_retry_step(1, false), RetryStep::RetryAfter { backoff_ms: 200 });
    assert_eq!(e.next_retry_step(2, false), RetryStep::Done);
    assert_eq!(e.next_retry_step(usize::MAX, false), RetryStep::Done);
}

#[test]
fn adapters_know_their_exchange() {
    let binance = BinanceAdapter::new();
    assert_eq!(binance.exchange_name(), "binance");
    assert_eq!(binance.format_ws_url("spot", "btcusdt@trade"), "wss://stream.binance.com:9443/ws/btcusdt@trade");
    assert_eq!(binance.format_ws_url("futures", "x"), "wss://fstream.binance.com/ws/x");
    assert_eq!(binance.format_ws_url("options", "x"), "");
    assert_eq!(binance.map_error_code(-1021), "Invalid timestamp");
    assert_eq!(binance.map_error_code(-2011), "Order canceled");
    assert_eq!(binance.map_error_code(-7), "Error code: -7");
    assert_eq!(binance.get_rate_limits(), vec![
        ("orders_per_second".to_string(), 10),
        ("orders_per_minute".to_string(), 1200),
        ("weight_per_minute".to_string(), 6000),
    ]);
    assert_eq!(binance.format_order_type(OrderType::StopMarket), "STOP_MARKET");
    assert_eq!(binance.parse_order_status("CANCELED"), OrderStatus::Canceled);
    let okex = OkexAdapter::new();
    assert_eq!(okex.format_ws_url("spot", "public"), "wss://ws.okx.com:8443/ws/v5/public");
    assert_eq!(okex.map_error_code(51010), "Insufficient balance");
    assert_eq!(okex.map_error_code(i32::MIN), "Error code: -2147483648");
    assert_eq!(okex.format_order_type(OrderType::StopLimit), "trigger");
    assert_eq!(okex.format_side(OrderSide::Sell), "sell");
    let bybit = BybitAdapter::new();
    assert_eq!(bybit.format_ws_url("futures", "ignored"), "wss://stream.bybit.com/v5/public/linear");
    assert_eq!(bybit.map_error_code(20004), "Duplicate order");
    assert_eq!(bybit.format_time_in_force(TimeInForce::GTX), "PostOnly");
    assert_eq!(bybit.parse_order_status("Cancelled"), OrderStatus::Canceled);
    assert_eq!(bybit.parse_order_status("Expired"), OrderStatus::New);
    assert_eq!(bybit.get_rate_limits().len(), 2);
    let all = ExchangeAdapter::new();
    assert_eq!(all.get_adapter("okex"), Some(AdapterKind::Okex));
    assert_eq!(all.get_adapter("kraken"), None);
    assert_eq!(all.list_exchanges(), ["binance", "okex", "bybit"]);
}

fn binance_reply() -> BinanceReply {
    BinanceReply {
        code: None,
        msg: None,
        order_id: Some(28),
        client_order_id: Some("cid".to_string()),
        symbol: Some("BTCUSDT".to_string()),
        status: Some("PARTIALLY_FILLED".to_string()),
        executed_qty: Some("0.50".to_string()),
        price: Some("100.5".to_string()),
        transact_time: Some(1_507_725_176_595),
    }
}

#[test]
fn binance_answers_become_responses() {
    let adapter = BinanceAdapter::new();
    let r = adapter.parse_order_response(&binance_reply(), NOW);
    assert_eq!((r.order_id.as_str(), r.client_order_id.as_str(), r.symbol.as_str()), ("28", "cid", "BTCUSDT"));
    assert_eq!(r.status, OrderStatus::PartiallyFilled);
    assert_eq!(r.executed_qty, dec(50, 2));
    assert_eq!(r.executed_price, Some(dec(1005, 1)));
    assert_eq!((r.timestamp, r.error), (1_507_725_176_595, None));

    let bare = BinanceReply {
        order_id: None,
        client_order_id: None,
        symbol: None,
        status: None,
        executed_qty: Some("a lot".to_string()),
        price: None,
        transact_time: None,
        ..binance_reply()
    };
    let r = adapter.parse_order_response(&bare, NOW);
    assert_eq!((r.order_id.as_str(), r.client_order_id.as_str(), r.symbol.as_str()), ("", "", ""));
    assert_eq!((r.status, r.executed_qty, r.executed_price, r.timestamp), (OrderStatus::New, Decimal::zero(), None, NOW));
    assert!(r.error.is_none());
    let negative = BinanceReply { executed_qty: Some("-1.250".to_string()), price: Some("1e3".to_string()), ..binance_reply() };
    let r = adapter.parse_order_response(&negative, NOW);
    assert_eq!(r.executed_qty, dec(-1250, 3));
    assert_eq!(r.executed_price, Some(dec(1000, 0)));

    let failed = BinanceReply { code: Some("-2010".to_string()), msg: Some("Account has insufficient balance".to_string()), ..binance_reply() };
    let r = adapter.parse_order_response(&failed, NOW);
    assert_eq!(r.error.as_deref(), Some("Error -2010: Account has insufficient balance"));
    assert_eq!((r.status, r.timestamp, r.order_id.as_str(), r.symbol.as_str()), (OrderStatus::Rejected, NOW, "", ""));
    assert_eq!((r.executed_qty, r.executed_price), (Decimal::zero(), None));
    let silent = BinanceReply { code: Some("-1".to_string()), msg: None, ..binance_reply() };
    assert_eq!(adapter.parse_order_response(&silent, NOW).error.as_deref(), Some("Error -1: Unknown error"));
}

#[test]
fn okx_and_bybit_answers_become_responses() {
    let okex = OkexAdapter::new();
    let taken = OkexReply {
        code: Some("0".to_string()),
        msg: Some(String::new()),
        first: Some(OkexAck { ord_id: Some("312269865356374016".to_string()), cl_ord_id: Some("cid".to_string()) }),
    };
    let r = okex.parse_order_response(&taken, NOW).unwrap();
    assert_eq!((r.order_id.as_str(), r.client_order_id.as_str(), r.symbol.as_str()), ("312269865356374016", "cid", ""));
    assert_eq!((r.status, r.executed_qty, r.executed_price, r.timestamp, r.error), (OrderStatus::New, Decimal::zero(), None, NOW, None));
    let bare = OkexReply { first: Some(OkexAck { ord_id: None, cl_ord_id: None }), ..taken };
    let r = okex.parse_order_response(&bare, NOW).unwrap();
    assert_eq!((r.order_id.as_str(), r.client_order_id.as_str()), ("", ""));
    let empty = OkexReply { first: None, ..bare };
    assert_eq!(okex.parse_order_response(&empty, NOW).err(), Some(ReplyError::InvalidFormat));
    for code in [Some("1"), Some("00"), Some(""), None] {
        let failed = OkexReply { code: code.map(|c| c.to_string()), msg: Some("Order failed".to_string()), first: None };
        let r = okex.parse_order_response(&failed, NOW).unwrap();
        assert_eq!((r.status, r.error.as_deref(), r.timestamp), (OrderStatus::Rejected, Some("Order failed"), NOW));
    }
    let silent = OkexReply { code: Some("51008".to_string()), msg: None, first: None };
    assert_eq!(okex.parse_order_response(&silent, NOW).unwrap().error.as_deref(), Some("Unknown error"));

    let bybit = BybitAdapter::new();
    let taken = BybitReply {
        ret_code: Some(0),
        ret_msg: Some("OK".to_string()),
        result: Some(BybitAck {
            order_id: Some("1321003749386327552".to_string()),
            order_link_id: Some("cid".to_string()),
            symbol: Some("BTCUSDT".to_string()),
            order_status: Some("Cancelled".to_string()),
        }),
    };
    let r = bybit.parse_order_response(&taken, NOW).unwrap();
    assert_eq!((r.order_id.as_str(), r.client_order_id.as_str(), r.symbol.as_str()), ("1321003749386327552", "cid", "BTCUSDT"));
    assert_eq!((r.status, r.executed_qty, r.executed_price, r.timestamp, r.error), (OrderStatus::Canceled, Decimal::zero(), None, NOW, None));
    let bare = BybitReply { result: Some(BybitAck { order_id: None, order_link_id: None, symbol: None, order_status: None }), ..taken };
    let r = bybit.parse_order_response(&bare, NOW).unwrap();
    assert_eq!((r.order_id.as_str(), r.symbol.as_str(), r.status), ("", "", OrderStatus::New));
    let empty = BybitReply { result: None, ..bare };
    assert_eq!(bybit.parse_order_response(&empty, NOW).err(), Some(ReplyError::InvalidFormat));
    for code in [Some(10001), Some(-1), None] {
        let failed = BybitReply { ret_code: code, ret_msg: Some("params error".to_string()), result: None };
        let r = bybit.parse_order_response(&failed, NOW).unwrap();
        assert_eq!((r.status, r.error.as_deref()), (OrderStatus::Rejected, Some("params error")));
    }
    let silent = BybitReply { ret_code: Some(1), ret_msg: None, result: None };
    assert_eq!(bybit.parse_order_response(&silent, NOW).unwrap().error.as_deref(), Some("Unknown error"));
}

fn sent_id(prepared: Prepared) -> String {
    match prepared {
        Prepared::Send(d) => d.request.client_order_id,
        Prepared::Rejected(r) => panic!("rejected: {:?}", r.error),
    }
}

fn duplicate(prepared: Prepared, id: u128) {
    match prepared {
        Prepared::Rejected(r) => {
            assert_eq!(r.error.as_deref(), Some("Duplicate order"));
            assert_eq!((r.command_id, r.success, r.responses.len()), (id, false, 0));
            assert!(r.selected_response.is_none());
        }
        Prepared::Send(d) => panic!("sent as {}", d.request.client_order_id),
    }
}

#[test]
fn command_id_is_taken_whatever_client_order_id_it_names() {
    let mut e = executor(3);
    let t = tracker(5);
    let mut first = command(COMMAND_ID);
    first.client_order_id = Some("one".to_string());
    let mut second = command(COMMAND_ID);
    second.client_order_id = Some("two".to_string());
    assert_eq!(sent_id(e.prepare(&t, &first, NOW)), "one");
    duplicate(e.prepare(&t, &second, NOW + 1), COMMAND_ID);
    // The id that did not go out is free for another command.
    let mut third = command(COMMAND_ID + 1);
    third.client_order_id = Some("two".to_string());
    assert_eq!(sent_id(e.prepare(&t, &third, NOW + 2)), "two");
}

#[test]
fn no_client_order_id_goes_out_twice() {
    let mut e = executor(3);
    let t = tracker(5);
    let minted = sent_id(e.prepare(&t, &command(COMMAND_ID), NOW));
    assert_eq!(minted, "TE_a1a2a3a4-b1b2-c1c2-d1d2-d3d4d5d6d7d8_1700000000000");
    assert!(e.idempotent_manager.is_duplicate(&minted));
    // Another command that names the minted id as its own choice.
    let mut thief = command(COMMAND_ID + 1);
    thief.client_order_id = Some(minted.clone());
    duplicate(e.prepare(&t, &thief, NOW + 1), COMMAND_ID + 1);
    // A command that was refused for its signer has its ids on record all the same.
    let mut okex = command(COMMAND_ID + 2);
    okex.exchange = "okex".to_string();
    okex.client_order_id = Some("okex-1".to_string());
    assert!(matches!(e.prepare(&t, &okex, NOW), Prepared::Rejected(_)));
    assert!(e.has_taken(COMMAND_ID + 2) && e.idempotent_manager.is_duplicate("okex-1"));
}

#[test]
fn further_attempts_go_out_under_ids_of_their_own() {
    let mut e = executor(3);
    let t = tracker(5);
    let cmd = command(COMMAND_ID);
    let first = sent_id(e.prepare(&t, &cmd, NOW));
    duplicate(e.prepare(&t, &cmd, NOW + 100), COMMAND_ID);
    let second = sent_id(e.prepare_retry(&t, &cmd, NOW + 100));
    assert_eq!(second, "TE_a1a2a3a4-b1b2-c1c2-d1d2-d3d4d5d6d7d8_1700000000100");
    assert_ne!(first, second);
    // Not twice within the same millisecond.
    duplicate(e.prepare_retry(&t, &cmd, NOW + 100), COMMAND_ID);
    // A command whose sender chose the id cannot be tried again under it.
    let mut chosen = command(COMMAND_ID + 1);
    chosen.client_order_id = Some("mine".to_string());
    assert_eq!(sent_id(e.prepare(&t, &chosen, NOW)), "mine");
    duplicate(e.prepare_retry(&t, &chosen, NOW + 100), COMMAND_ID + 1);
    // A further attempt at a command that never came takes it on record.
    assert!(!e.has_taken(77));
    sent_id(e.prepare_retry(&t, &command(77), NOW));
    assert!(e.has_taken(77));
    duplicate(e.prepare(&t, &command(77), NOW + 5), 77);
}

#[test]
fn each_connection_answers_at_most_once() {
    let mut waiting: Vec<u128> = vec![4, 7, 9, 7];
    assert!(!OrderExecutor::take_reply(&mut waiting, 5, true));
    assert!(!OrderExecutor::take_reply(&mut waiting, 7, false));
    assert_eq!(waiting, [4, 7, 9, 7]);
    assert!(OrderExecutor::take_reply(&mut waiting, 7, true));
    assert_eq!(waiting, [4, 9, 7]);
    assert!(OrderExecutor::take_reply(&mut waiting, 4, true));
    assert!(OrderExecutor::take_reply(&mut waiting, 7, true));
    assert!(!OrderExecutor::take_reply(&mut waiting, 7, true));
    assert_eq!(waiting, [9]);
    let mut nobody: Vec<u128> = vec![];
    assert!(!OrderExecutor::take_reply(&mut nobody, 1, true));
}

#[test]
fn outcome_of_a_send_is_booked_in_full() {
    let mut t = tracker(2);
    let before = t.get_metrics(1).unwrap();
    assert_eq!(before.rtt_us, 100);
    OrderExecutor::record_outcome(&mut t, 1, SendOutcome::Delivered { rtt_us: 50_000 }, NOW + 7);
    let after = t.get_metrics(1).unwrap();
    assert_eq!((after.rtt_us, after.last_update, after.consecutive_failures), ((100 * 9 + 50_000) / 10, NOW + 7, 0));
    OrderExecutor::record_outcome(&mut t, 1, SendOutcome::TimedOut, NOW + 8);
    OrderExecutor::record_outcome(&mut t, 1, SendOutcome::Failed, NOW + 9);
    let failed = t.get_metrics(1).unwrap();
    assert_eq!((failed.rtt_us, failed.last_update, failed.consecutive_failures), (after.rtt_us, NOW + 9, 2));
    assert_eq!((failed.total_messages, failed.total_errors), (after.total_messages, 2));
}

#[test]
fn parameters_stand_in_the_order_of_their_keys() {
    let builder = OrderBuilder::new("binance".to_string());
    for (post_only, reduce_only, price) in [
        (false, false, None),
        (true, false, None),
        (false, true, Some(dec(1, 0))),
        (true, true, Some(dec(1, 0))),
    ] {
        let mut cmd = command(COMMAND_ID);
        cmd.post_only = post_only;
        cmd.reduce_only = reduce_only;
        cmd.price = price;
        assert!(keys_ascending(&builder.build_params(&cmd, "cid", NOW)));
    }
    let pair = |k: &str| (k.to_string(), String::new());
    assert!(keys_ascending(&vec![]));
    assert!(keys_ascending(&vec![pair("b")]));
    assert!(keys_ascending(&vec![pair("a"), pair("b"), pair("ba")]));
    assert!(!keys_ascending(&vec![pair("b"), pair("a")]));
    assert!(!keys_ascending(&vec![pair("a"), pair("a")]));
    assert!(!keys_ascending(&vec![pair("a"), pair("c"), pair("b")]));
    let texts = ["", "A", "Z", "a", "ab", "abc", "b", "timeInForce", "timestamp", "é", "z"];
    for a in texts {
        for b in texts {
            assert_eq!(stands_before(a, b), a < b, "{:?} {:?}", a, b);
        }
    }
}
