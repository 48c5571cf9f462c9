use trading_control::common::calendar::{FIRST_MILLIS, LAST_MILLIS};
use trading_control::common::events::{
    CancelOrderEvent, ClosePositionEvent, HedgePositionEvent, ModifyOrderEvent, OpenPositionEvent,
    TradingEvent,
};
use trading_control::common::frame::{
    frame, limit_of, read_head, COMMANDS, EVENTS, HEAD_LEN, ORDERS, REPORTS, REQUESTS, RESULTS,
    SIGNALS,
};
use trading_control::common::messages::EventMessage;
use trading_control::common::types::{
    Exchange, FundingDirection, OrderResponseStatus, OrderType, Priority, Real, RiskLevel, Side,
    Signal,
    SignalData, SignalType, Symbol, TriggerType,
};
use trading_control::common::wire::{DecodeError, Field};

fn bits_of(x: f64) -> Real {
    Real { bits: x.to_bits() }
}

fn signal(kind: SignalType, data: SignalData) -> Signal {
    let mut s = Signal::new("sig-1".to_string(), kind, data, 1_700_000_000_123);
    s.symbol = "BTCUSDT".to_string();
    s.exchange = "binance".to_string();
    s
}

fn same_signal(a: &Signal, b: &Signal) -> bool {
    format!("{:?}", a) == format!("{:?}", b)
}

fn wire_signals() -> Vec<Signal> {
    vec![
        signal(
            SignalType::AdaptiveSpreadDeviation,
            SignalData::AdaptiveSpreadDeviation {
                exchange_id: 1,
                symbol_id: 42,
                spread_percentile: bits_of(0.87),
                current_spread: bits_of(0.002),
                threshold_percentile: bits_of(0.8),
            },
        ),
        signal(
            SignalType::FixedSpreadDeviation,
            SignalData::FixedSpreadDeviation {
                exchange_id: 2,
                symbol_id: 7,
                current_spread: bits_of(-0.5),
                fixed_threshold: bits_of(f64::INFINITY),
            },
        ),
        signal(
            SignalType::FundingRateDirection,
            SignalData::FundingRateDirection {
                exchange_id: 1,
                symbol_id: 42,
                funding_rate: bits_of(0.0003),
                direction: FundingDirection::Neutral,
            },
        ),
        signal(
            SignalType::RealTimeFundingRisk,
            SignalData::RealTimeFundingRisk {
                exchange_id: 3,
                symbol_id: 9,
                risk_level: RiskLevel::Critical,
                funding_rate: bits_of(f64::NAN),
                position_cost: bits_of(1e300),
            },
        ),
        signal(
            SignalType::OrderResponse,
            SignalData::OrderResponse {
                order_id: "订单-7".to_string(),
                exchange_id: u32::MAX,
                symbol_id: 0,
                status: OrderResponseStatus::Cancelled,
            },
        ),
    ]
}

#[test]
fn signals_come_back_as_they_went() {
    for s in wire_signals() {
        let bytes = s.to_bytes();
        let back = Signal::from_bytes(&bytes).unwrap();
        assert!(same_signal(&s, &back), "{:?} != {:?}", s, back);
    }
}

#[test]
fn signal_encoding_is_the_same_each_time() {
    for s in wire_signals() {
        assert_eq!(s.to_bytes(), s.to_bytes());
    }
}

#[test]
fn signal_layout_is_little_endian_without_padding() {
    let mut s = Signal::new(
        "ab".to_string(),
        SignalType::FundingRateDirection,
        SignalData::FundingRateDirection {
            exchange_id: 1,
            symbol_id: 0x0102_0304,
            funding_rate: bits_of(1.0),
            direction: FundingDirection::Negative,
        },
        -2,
    );
    s.symbol = "c".to_string();
    let expected: Vec<u8> = vec![
        2, 0, 0, 0, // kind
        2, 0, 0, 0, b'a', b'b', // id
        1, 0, 0, 0, b'c', // symbol
        0, 0, 0, 0, // exchange
        0xFE, 0xFF, 0xFF, 0xFF, 0xFF, 0xFF, 0xFF, 0xFF, // timestamp
        1, 0, 0, 0, // exchange id
        4, 3, 2, 1, // symbol id
        0, 0, 0, 0, 0, 0, 0xF0, 0x3F, // funding rate
        1, 0, 0, 0, // direction
    ];
    assert_eq!(s.to_bytes(), expected);
}

#[test]
fn signal_decoder_ignores_what_follows_the_payload() {
    let s = wire_signals().remove(0);
    let mut bytes = s.to_bytes();
    bytes.extend_from_slice(&[0u8; 64]);
    assert!(same_signal(&s, &Signal::from_bytes(&bytes).unwrap()));
}

#[test]
fn signal_decoder_fills_what_the_wire_does_not_carry() {
    let mut s = wire_signals().remove(0);
    s.priority = 7;
    s.source = "feed".to_string();
    let back = Signal::from_bytes(&s.to_bytes()).unwrap();
    assert_eq!(back.priority, 1);
    assert_eq!(back.source, "unknown");
    assert!(back.side.is_none() && back.price.is_none() && back.quantity.is_none());
    assert!(back.metadata.is_empty());
}

#[test]
fn signal_decoder_names_what_is_wrong() {
    let good = wire_signals().remove(2).to_bytes();
    assert_eq!(Signal::from_bytes(&[]).err(), Some(DecodeError::Truncated));
    assert_eq!(Signal::from_bytes(&good[..3]).err(), Some(DecodeError::Truncated));
    for cut in 4..good.len() {
        assert_eq!(Signal::from_bytes(&good[..cut]).err(), Some(DecodeError::Truncated), "cut at {}", cut);
    }
    let mut bad_kind = good.clone();
    bad_kind[0] = 5;
    assert_eq!(Signal::from_bytes(&bad_kind).err(), Some(DecodeError::InvalidSignalType));
    let mut bad_direction = good.clone();
    let n = bad_direction.len();
    bad_direction[n - 4] = 3;
    assert_eq!(
        Signal::from_bytes(&bad_direction).err(),
        Some(DecodeError::InvalidField(Field::Direction))
    );
    let mut bad_text = good.clone();
    bad_text[8] = 0xFF;
    assert_eq!(Signal::from_bytes(&bad_text).err(), Some(DecodeError::InvalidUtf8));
}

#[test]
fn signal_decoder_rejects_enum_codes_out_of_range() {
    let risk = wire_signals().remove(3).to_bytes();
    let mut bad = risk.clone();
    let n = bad.len();
    bad[n - 20] = 4;
    assert_eq!(Signal::from_bytes(&bad).err(), Some(DecodeError::InvalidField(Field::RiskLevel)));
    let response = wire_signals().remove(4).to_bytes();
    let mut bad = response.clone();
    let n = bad.len();
    bad[n - 4] = 9;
    assert_eq!(Signal::from_bytes(&bad).err(), Some(DecodeError::InvalidField(Field::Status)));
}

#[test]
fn signal_decoder_rejects_times_beyond_the_calendar() {
    let mut s = wire_signals().remove(0);
    s.timestamp = i64::MAX;
    assert_eq!(Signal::from_bytes(&s.to_bytes()).err(), Some(DecodeError::InvalidTimestamp));
    s.timestamp = i64::MIN;
    assert_eq!(Signal::from_bytes(&s.to_bytes()).err(), Some(DecodeError::InvalidTimestamp));
    s.timestamp = -1;
    assert_eq!(Signal::from_bytes(&s.to_bytes()).unwrap().timestamp, -1);
    for (timestamp, named) in [
        (FIRST_MILLIS, true),
        (FIRST_MILLIS - 1, false),
        (LAST_MILLIS, true),
        (LAST_MILLIS + 1, false),
        (0, true),
    ] {
        s.timestamp = timestamp;
        let back = Signal::from_bytes(&s.to_bytes());
        if named {
            assert_eq!(back.unwrap().timestamp, timestamp);
        } else {
            assert_eq!(back.err(), Some(DecodeError::InvalidTimestamp));
        }
    }
    assert_eq!((FIRST_MILLIS, LAST_MILLIS), (-8_334_601_228_800_000, 8_210_266_876_799_999));
}

#[test]
fn kinds_that_do_not_travel_are_not_decoded() {
    let s = signal(SignalType::Market, SignalData::Market { market_data: "x".to_string() });
    let bytes = s.to_bytes();
    assert_eq!(&bytes[..4], &[6, 0, 0, 0]);
    assert_eq!(Signal::from_bytes(&bytes).err(), Some(DecodeError::InvalidSignalType));
}

fn events() -> Vec<TradingEvent> {
    vec![
        TradingEvent::OpenPosition(OpenPositionEvent {
            symbol: Symbol(42),
            exchange: Exchange::Binance,
            side: Side::Sell,
            quantity: bits_of(100.0),
            order_type: OrderType::Market,
            price: None,
            trigger_type: TriggerType::MTTrigger,
            reason: "open".to_string(),
            timestamp: 1_700_000_000_000,
        }),
        TradingEvent::ClosePosition(ClosePositionEvent {
            symbol: Symbol(1),
            exchange: Exchange::OKX,
            side: Side::Buy,
            quantity: bits_of(0.25),
            order_type: OrderType::Limit,
            price: Some(bits_of(101.5)),
            trigger_type: TriggerType::MTCloseTrigger,
            reason: String::new(),
            timestamp: 5,
        }),
        TradingEvent::HedgePosition(HedgePositionEvent {
            symbol: Symbol(3),
            primary_exchange: Exchange::Bybit,
            hedge_exchange: Exchange::Bitget,
            side: Side::Buy,
            quantity: bits_of(7.0),
            trigger_type: TriggerType::HedgeTrigger,
            reason: "对冲".to_string(),
            timestamp: -7,
        }),
        TradingEvent::CancelOrder(CancelOrderEvent {
            order_id: "ORD_1".to_string(),
            symbol: Symbol(9),
            exchange: Exchange::Binance,
            reason: "stale".to_string(),
            timestamp: 12,
        }),
        TradingEvent::ModifyOrder(ModifyOrderEvent {
            order_id: "ORD_2".to_string(),
            symbol: Symbol(10),
            exchange: Exchange::OKX,
            new_price: Some(bits_of(1.0)),
            new_quantity: None,
            reason: "reprice".to_string(),
            timestamp: 13,
        }),
    ]
}

fn message(event: TradingEvent, sequence_id: u64) -> EventMessage {
    EventMessage { event, sequence_id, timestamp: 1_700_000_000_777 }
}

#[test]
fn event_messages_come_back_as_they_went() {
    for (i, e) in events().into_iter().enumerate() {
        let m = message(e, i as u64 + 1);
        let bytes = m.to_bytes();
        let back = EventMessage::from_bytes(&bytes).unwrap();
        assert_eq!(format!("{:?}", m), format!("{:?}", back));
        assert_eq!(bytes, m.to_bytes());
    }
}

#[test]
fn event_message_ends_with_sequence_and_time() {
    let m = EventMessage { event: events().remove(3), sequence_id: 0x0102, timestamp: 3 };
    let bytes = m.to_bytes();
    let n = bytes.len();
    assert_eq!(&bytes[..4], &[3, 0, 0, 0]);
    assert_eq!(&bytes[n - 16..n - 8], &[2, 1, 0, 0, 0, 0, 0, 0]);
    assert_eq!(&bytes[n - 8..], &[3, 0, 0, 0, 0, 0, 0, 0]);
}

#[test]
fn event_decoder_names_what_is_wrong() {
    let good = message(events().remove(0), 1).to_bytes();
    assert_eq!(EventMessage::from_bytes(&good[..15]).err(), Some(DecodeError::Truncated));
    assert_eq!(EventMessage::from_bytes(&good[1..]).err().is_some(), true);
    let mut longer = good.clone();
    longer.insert(good.len() - 16, 0);
    assert_eq!(EventMessage::from_bytes(&longer).err(), Some(DecodeError::TrailingBytes));
    let mut shorter = good.clone();
    shorter.remove(good.len() - 17);
    assert_eq!(EventMessage::from_bytes(&shorter).err(), Some(DecodeError::Truncated));
    let mut bad_kind = good.clone();
    bad_kind[0] = 5;
    assert_eq!(EventMessage::from_bytes(&bad_kind).err(), Some(DecodeError::InvalidEventType));
    let mut bad_exchange = good.clone();
    bad_exchange[8] = 4;
    assert_eq!(
        EventMessage::from_bytes(&bad_exchange).err(),
        Some(DecodeError::InvalidField(Field::Exchange))
    );
    let mut bad_side = good.clone();
    bad_side[12] = 2;
    assert_eq!(EventMessage::from_bytes(&bad_side).err(), Some(DecodeError::InvalidField(Field::Side)));
    let mut bad_order_type = good.clone();
    bad_order_type[24] = 3;
    assert_eq!(
        EventMessage::from_bytes(&bad_order_type).err(),
        Some(DecodeError::InvalidField(Field::OrderType))
    );
    let mut bad_flag = good.clone();
    bad_flag[28] = 2;
    assert_eq!(
        EventMessage::from_bytes(&bad_flag).err(),
        Some(DecodeError::InvalidField(Field::PresenceFlag))
    );
    let mut bad_trigger = good.clone();
    bad_trigger[29] = 3;
    assert_eq!(
        EventMessage::from_bytes(&bad_trigger).err(),
        Some(DecodeError::InvalidField(Field::TriggerType))
    );
    let mut late = message(events().remove(0), 1);
    late.timestamp = i64::MAX;
    assert_eq!(EventMessage::from_bytes(&late.to_bytes()).err(), Some(DecodeError::InvalidTimestamp));
}

#[test]
fn event_priorities() {
    let e = events();
    assert_eq!(e[0].priority(), Priority::Low);
    assert_eq!(e[1].priority(), Priority::High);
    assert_eq!(e[2].priority(), Priority::High);
    assert_eq!(e[3].priority(), Priority::High);
    assert_eq!(e[4].priority(), Priority::Medium);
}

#[test]
fn frames_carry_topic_length_and_payload() {
    let payload: Vec<u8> = (0..=255u8).cycle().take(300).collect();
    let bytes = frame(EVENTS, &payload).unwrap();
    assert_eq!(bytes.len(), 305);
    assert_eq!(&bytes[..5], &[b'E', 0x2C, 0x01, 0, 0]);
    assert_eq!(&bytes[5..], &payload[..]);
    assert_eq!(read_head(&bytes[..5]), Some((EVENTS, 300)));
    assert_eq!(read_head(&bytes[..4]), None);
    assert_eq!(read_head(&bytes[..6]), None);
    assert_eq!(read_head(&[]), None);
    assert_eq!(read_head(&[SIGNALS, 0xFF, 0xFF, 0xFF, 0xFF]), Some((SIGNALS, 0xFFFF_FFFF)));
    assert_eq!(frame(SIGNALS, &vec![]).unwrap(), [b'S', 0, 0, 0, 0]);
    assert_eq!((limit_of(SIGNALS), limit_of(EVENTS), limit_of(0)), (1024, 4096, 4096));
    assert!(frame(SIGNALS, &vec![0; 1024]).is_some());
    assert!(frame(SIGNALS, &vec![0; 1025]).is_none());
    assert!(frame(EVENTS, &vec![0; 4096]).is_some());
    assert!(frame(EVENTS, &vec![0; 4097]).is_none());
    assert_eq!(
        [SIGNALS, EVENTS, REQUESTS, ORDERS, REPORTS, COMMANDS, RESULTS],
        [b'S', b'E', b'Q', b'O', b'R', b'C', b'X']
    );
    assert_eq!(HEAD_LEN, 5);
}
