//! The wire codec of signals and event messages.
//!
//! A signal is its kind tag, then id, symbol and exchange as strings, the
//! timestamp, and the payload of its kind. An event message is the event
//! body (the event tag, then every field of the event in declaration
//! order) followed by the sequence id and the envelope's timestamp, sixteen
//! bytes in all, which the decoder splits off the end before it reads the
//! body.
//!
//! [`encode_signal`] and [`decode_signal`], [`encode_event_message`] and
//! [`decode_event_message`] say what the bytes are; `to_bytes` and
//! `from_bytes` compute exactly that.

use vstd::prelude::*;
use vstd::slice::slice_subrange;
use vstd::utf8::encode_utf8;
use crate::common::calendar::calendar_accepts;
use crate::common::events::{
    CancelOrderEvent, ClosePositionEvent, EventView, HedgePositionEvent, ModifyOrderEvent,
    OpenPositionEvent, TradingEvent,
};
use crate::common::messages::{EventMessage, EventMessageView};
use crate::common::types::{
    FundingDirection, OrderResponseStatus, Real, RiskLevel, Signal, SignalData, SignalType,
};
use crate::common::wire::{
    DecodeError, Parsed, TWO_TO_32, appended, group_take_put, i64_bits, lemma_put_u64_len,
    put_direction, put_exchange, put_opt_real, put_order_type, put_real, put_response_status,
    put_risk_level, put_side, put_string, put_symbol, put_timestamp, put_trigger_type, put_u32,
    put_u64, read_direction, read_exchange, read_opt_real, read_order_type, read_real,
    read_response_status, read_risk_level, read_side, read_string, read_symbol, read_timestamp,
    read_trigger_type, read_u32, read_u64, tail, take_direction, take_exchange, take_opt_real,
    take_order_type, take_real, take_response_status, take_risk_level, take_side, take_string,
    take_symbol, take_timestamp, take_trigger_type, take_u32, take_u64, write_direction,
    write_exchange, write_opt_real, write_order_type, write_real, write_response_status,
    write_risk_level, write_side, write_string, write_symbol, write_timestamp, write_trigger_type,
    write_u32, write_u64,
};

verus! {

/// The signal kinds that travel on the wire, in tag order.
#[derive(Debug, Clone, Copy, PartialEq, Eq, Structural)]
pub enum BinarySignalType {
    AdaptiveSpreadDeviation,
    FixedSpreadDeviation,
    FundingRateDirection,
    RealTimeFundingRisk,
    OrderResponse,
}

/// The event kinds, in tag order.
#[derive(Debug, Clone, Copy, PartialEq, Eq, Structural)]
pub enum EventType {
    OpenPosition,
    ClosePosition,
    HedgePosition,
    CancelOrder,
    ModifyOrder,
}

impl BinarySignalType {
    /// The tag of the kind.
    pub open spec fn code_spec(self) -> u32 {
        match self {
            BinarySignalType::AdaptiveSpreadDeviation => 0,
            BinarySignalType::FixedSpreadDeviation => 1,
            BinarySignalType::FundingRateDirection => 2,
            BinarySignalType::RealTimeFundingRisk => 3,
            BinarySignalType::OrderResponse => 4,
        }
    }

    /// The kind with the given tag, if there is one.
    pub open spec fn from_code_spec(c: u32) -> Option<BinarySignalType> {
        if c == 0 {
            Some(BinarySignalType::AdaptiveSpreadDeviation)
        } else if c == 1 {
            Some(BinarySignalType::FixedSpreadDeviation)
        } else if c == 2 {
            Some(BinarySignalType::FundingRateDirection)
        } else if c == 3 {
            Some(BinarySignalType::RealTimeFundingRisk)
        } else if c == 4 {
            Some(BinarySignalType::OrderResponse)
        } else {
            None
        }
    }

    /// The tag of the kind.
    pub fn code(self) -> (r: u32)
        ensures
            r == self.code_spec(),
    {
        match self {
            BinarySignalType::AdaptiveSpreadDeviation => 0,
            BinarySignalType::FixedSpreadDeviation => 1,
            BinarySignalType::FundingRateDirection => 2,
            BinarySignalType::RealTimeFundingRisk => 3,
            BinarySignalType::OrderResponse => 4,
        }
    }

    /// The kind with the given tag, if there is one.
    pub fn from_code(c: u32) -> (r: Option<BinarySignalType>)
        ensures
            r == BinarySignalType::from_code_spec(c),
    {
        if c == 0 {
            Some(BinarySignalType::AdaptiveSpreadDeviation)
        } else if c == 1 {
            Some(BinarySignalType::FixedSpreadDeviation)
        } else if c == 2 {
            Some(BinarySignalType::FundingRateDirection)
        } else if c == 3 {
            Some(BinarySignalType::RealTimeFundingRisk)
        } else if c == 4 {
            Some(BinarySignalType::OrderResponse)
        } else {
            None
        }
    }

    /// The same kind among all signal kinds.
    pub open spec fn signal_type_spec(self) -> SignalType {
        match self {
            BinarySignalType::AdaptiveSpreadDeviation => SignalType::AdaptiveSpreadDeviation,
            BinarySignalType::FixedSpreadDeviation => SignalType::FixedSpreadDeviation,
            BinarySignalType::FundingRateDirection => SignalType::FundingRateDirection,
            BinarySignalType::RealTimeFundingRisk => SignalType::RealTimeFundingRisk,
            BinarySignalType::OrderResponse => SignalType::OrderResponse,
        }
    }

    /// The same kind among all signal kinds.
    pub fn signal_type(self) -> (r: SignalType)
        ensures
            r == self.signal_type_spec(),
            r.index_spec() == self.code_spec(),
    {
        match self {
            BinarySignalType::AdaptiveSpreadDeviation => SignalType::AdaptiveSpreadDeviation,
            BinarySignalType::FixedSpreadDeviation => SignalType::FixedSpreadDeviation,
            BinarySignalType::FundingRateDirection => SignalType::FundingRateDirection,
            BinarySignalType::RealTimeFundingRisk => SignalType::RealTimeFundingRisk,
            BinarySignalType::OrderResponse => SignalType::OrderResponse,
        }
    }
}

impl EventType {
    /// The tag of the kind.
    pub open spec fn code_spec(self) -> u32 {
        match self {
            EventType::OpenPosition => 0,
            EventType::ClosePosition => 1,
            EventType::HedgePosition => 2,
            EventType::CancelOrder => 3,
            EventType::ModifyOrder => 4,
        }
    }

    /// The kind with the given tag, if there is one.
    pub open spec fn from_code_spec(c: u32) -> Option<EventType> {
        if c == 0 {
            Some(EventType::OpenPosition)
        } else if c == 1 {
            Some(EventType::ClosePosition)
        } else if c == 2 {
            Some(EventType::HedgePosition)
        } else if c == 3 {
            Some(EventType::CancelOrder)
        } else if c == 4 {
            Some(EventType::ModifyOrder)
        } else {
            None
        }
    }

    /// The tag of the kind.
    pub fn code(self) -> (r: u32)
        ensures
            r == self.code_spec(),
    {
        match self {
            EventType::OpenPosition => 0,
            EventType::ClosePosition => 1,
            EventType::HedgePosition => 2,
            EventType::CancelOrder => 3,
            EventType::ModifyOrder => 4,
        }
    }

    /// The kind with the given tag, if there is one.
    pub fn from_code(c: u32) -> (r: Option<EventType>)
        ensures
            r == EventType::from_code_spec(c),
    {
        if c == 0 {
            Some(EventType::OpenPosition)
        } else if c == 1 {
            Some(EventType::ClosePosition)
        } else if c == 2 {
            Some(EventType::HedgePosition)
        } else if c == 3 {
            Some(EventType::CancelOrder)
        } else if c == 4 {
            Some(EventType::ModifyOrder)
        } else {
            None
        }
    }
}

/// The payload of a signal as the wire carries it. Kinds that do not
/// travel have none.
pub enum WirePayload {
    AdaptiveSpreadDeviation {
        exchange_id: u32,
        symbol_id: u32,
        spread_percentile: Real,
        current_spread: Real,
        threshold_percentile: Real,
    },
    FixedSpreadDeviation { exchange_id: u32, symbol_id: u32, current_spread: Real, fixed_threshold: Real },
    FundingRateDirection {
        exchange_id: u32,
        symbol_id: u32,
        funding_rate: Real,
        direction: FundingDirection,
    },
    RealTimeFundingRisk {
        exchange_id: u32,
        symbol_id: u32,
        risk_level: RiskLevel,
        funding_rate: Real,
        position_cost: Real,
    },
    OrderResponse {
        order_id: Seq<char>,
        exchange_id: u32,
        symbol_id: u32,
        status: OrderResponseStatus,
    },
    Absent,
}

/// What the wire carries of a signal.
pub struct WireSignal {
    pub kind: SignalType,
    pub id: Seq<char>,
    pub symbol: Seq<char>,
    pub exchange: Seq<char>,
    pub timestamp: i64,
    pub payload: WirePayload,
}

/// The part of a signal between the tag and the payload.
pub struct WireHeader {
    pub id: Seq<char>,
    pub symbol: Seq<char>,
    pub exchange: Seq<char>,
    pub timestamp: i64,
}

impl WirePayload {
    /// The wire kind of the payload, if it has one.
    pub open spec fn kind(self) -> Option<BinarySignalType> {
        match self {
            WirePayload::AdaptiveSpreadDeviation { .. } => Some(
                BinarySignalType::AdaptiveSpreadDeviation,
            ),
            WirePayload::FixedSpreadDeviation { .. } => Some(BinarySignalType::FixedSpreadDeviation),
            WirePayload::FundingRateDirection { .. } => Some(BinarySignalType::FundingRateDirection),
            WirePayload::RealTimeFundingRisk { .. } => Some(BinarySignalType::RealTimeFundingRisk),
            WirePayload::OrderResponse { .. } => Some(BinarySignalType::OrderResponse),
            WirePayload::Absent => None,
        }
    }

    /// Every string of the payload is short enough for its length prefix.
    pub open spec fn strings_fit(self) -> bool {
        match self {
            WirePayload::OrderResponse { order_id, .. } => encode_utf8(order_id).len() < TWO_TO_32,
            _ => true,
        }
    }
}

impl WireSignal {
    /// The signal is one that the decoder returns: a wire kind with the
    /// payload of that kind, strings short enough for their length
    /// prefixes, and a timestamp that the calendar can name.
    pub open spec fn wf(self) -> bool {
        &&& self.payload.kind() matches Some(k) && k.signal_type_spec() == self.kind
        &&& self.payload.strings_fit()
        &&& encode_utf8(self.id).len() < TWO_TO_32
        &&& encode_utf8(self.symbol).len() < TWO_TO_32
        &&& encode_utf8(self.exchange).len() < TWO_TO_32
        &&& calendar_accepts(self.timestamp)
    }
}

impl SignalData {
    /// What the wire carries of the payload.
    pub open spec fn wire_view(self) -> WirePayload {
        match self {
            SignalData::AdaptiveSpreadDeviation { exchange_id, symbol_id, spread_percentile, current_spread, threshold_percentile } => WirePayload::AdaptiveSpreadDeviation { exchange_id, symbol_id, spread_percentile, current_spread, threshold_percentile },
            SignalData::FixedSpreadDeviation { exchange_id, symbol_id, current_spread, fixed_threshold } => WirePayload::FixedSpreadDeviation { exchange_id, symbol_id, current_spread, fixed_threshold },
            SignalData::FundingRateDirection { exchange_id, symbol_id, funding_rate, direction } => WirePayload::FundingRateDirection { exchange_id, symbol_id, funding_rate, direction },
            SignalData::RealTimeFundingRisk { exchange_id, symbol_id, risk_level, funding_rate, position_cost } => WirePayload::RealTimeFundingRisk { exchange_id, symbol_id, risk_level, funding_rate, position_cost },
            SignalData::OrderResponse { order_id, exchange_id, symbol_id, status } => WirePayload::OrderResponse { order_id: order_id@, exchange_id, symbol_id, status },
            _ => WirePayload::Absent,
        }
    }
}

impl Signal {
    /// What the wire carries of the signal.
    pub open spec fn wire_view(self) -> WireSignal {
        WireSignal {
            kind: self.signal_type,
            id: self.id@,
            symbol: self.symbol@,
            exchange: self.exchange@,
            timestamp: self.timestamp,
            payload: self.data.wire_view(),
        }
    }
}

/// The bytes of a payload, followed by `rest`.
pub open spec fn put_payload(p: WirePayload, rest: Seq<u8>) -> Seq<u8> {
    match p {
        WirePayload::AdaptiveSpreadDeviation { exchange_id, symbol_id, spread_percentile, current_spread, threshold_percentile } => put_u32(exchange_id, put_u32(symbol_id, put_real(spread_percentile, put_real(current_spread, put_real(threshold_percentile, rest))))),
        WirePayload::FixedSpreadDeviation { exchange_id, symbol_id, current_spread, fixed_threshold } => put_u32(exchange_id, put_u32(symbol_id, put_real(current_spread, put_real(fixed_threshold, rest)))),
        WirePayload::FundingRateDirection { exchange_id, symbol_id, funding_rate, direction } => put_u32(exchange_id, put_u32(symbol_id, put_real(funding_rate, put_direction(direction, rest)))),
        WirePayload::RealTimeFundingRisk { exchange_id, symbol_id, risk_level, funding_rate, position_cost } => put_u32(exchange_id, put_u32(symbol_id, put_risk_level(risk_level, put_real(funding_rate, put_real(position_cost, rest))))),
        WirePayload::OrderResponse { order_id, exchange_id, symbol_id, status } => put_string(order_id, put_u32(exchange_id, put_u32(symbol_id, put_response_status(status, rest)))),
        WirePayload::Absent => rest,
    }
}

/// The bytes of a signal.
pub open spec fn encode_signal(w: WireSignal) -> Seq<u8> {
    put_u32(
        w.kind.index_spec() as u32,
        put_string(
            w.id,
            put_string(
                w.symbol,
                put_string(
                    w.exchange,
                    put_timestamp(w.timestamp, put_payload(w.payload, Seq::empty())),
                ),
            ),
        ),
    )
}

pub open spec fn take_adaptive(s: Seq<u8>) -> Parsed<WirePayload> {
    match take_u32(s) {
        Err(e) => Err(e),
        Ok((exchange_id, s1)) =>         match take_u32(s1) {
            Err(e) => Err(e),
            Ok((symbol_id, s2)) =>             match take_real(s2) {
                Err(e) => Err(e),
                Ok((spread_percentile, s3)) =>                 match take_real(s3) {
                    Err(e) => Err(e),
                    Ok((current_spread, s4)) =>                     match take_real(s4) {
                        Err(e) => Err(e),
                        Ok((threshold_percentile, s5)) => Ok((WirePayload::AdaptiveSpreadDeviation { exchange_id, symbol_id, spread_percentile, current_spread, threshold_percentile }, s5)),
                    },
                },
            },
        },
    }
}

pub open spec fn take_fixed(s: Seq<u8>) -> Parsed<WirePayload> {
    match take_u32(s) {
        Err(e) => Err(e),
        Ok((exchange_id, s1)) =>         match take_u32(s1) {
            Err(e) => Err(e),
            Ok((symbol_id, s2)) =>             match take_real(s2) {
                Err(e) => Err(e),
                Ok((current_spread, s3)) =>                 match take_real(s3) {
                    Err(e) => Err(e),
                    Ok((fixed_threshold, s4)) => Ok((WirePayload::FixedSpreadDeviation { exchange_id, symbol_id, current_spread, fixed_threshold }, s4)),
                },
            },
        },
    }
}

pub open spec fn take_funding(s: Seq<u8>) -> Parsed<WirePayload> {
    match take_u32(s) {
        Err(e) => Err(e),
        Ok((exchange_id, s1)) =>         match take_u32(s1) {
            Err(e) => Err(e),
            Ok((symbol_id, s2)) =>             match take_real(s2) {
                Err(e) => Err(e),
                Ok((funding_rate, s3)) =>                 match take_direction(s3) {
                    Err(e) => Err(e),
                    Ok((direction, s4)) => Ok((WirePayload::FundingRateDirection { exchange_id, symbol_id, funding_rate, direction }, s4)),
                },
            },
        },
    }
}

pub open spec fn take_funding_risk(s: Seq<u8>) -> Parsed<WirePayload> {
    match take_u32(s) {
        Err(e) => Err(e),
        Ok((exchange_id, s1)) =>         match take_u32(s1) {
            Err(e) => Err(e),
            Ok((symbol_id, s2)) =>             match take_risk_level(s2) {
                Err(e) => Err(e),
                Ok((risk_level, s3)) =>                 match take_real(s3) {
                    Err(e) => Err(e),
                    Ok((funding_rate, s4)) =>                     match take_real(s4) {
                        Err(e) => Err(e),
                        Ok((position_cost, s5)) => Ok((WirePayload::RealTimeFundingRisk { exchange_id, symbol_id, risk_level, funding_rate, position_cost }, s5)),
                    },
                },
            },
        },
    }
}

pub open spec fn take_order_response(s: Seq<u8>) -> Parsed<WirePayload> {
    match take_string(s) {
        Err(e) => Err(e),
        Ok((order_id, s1)) =>         match take_u32(s1) {
            Err(e) => Err(e),
            Ok((exchange_id, s2)) =>             match take_u32(s2) {
                Err(e) => Err(e),
                Ok((symbol_id, s3)) =>                 match take_response_status(s3) {
                    Err(e) => Err(e),
                    Ok((status, s4)) => Ok((WirePayload::OrderResponse { order_id, exchange_id, symbol_id, status }, s4)),
                },
            },
        },
    }
}

/// Splits the payload of the given kind off the front of `s`.
pub open spec fn take_payload(kind: BinarySignalType, s: Seq<u8>) -> Parsed<WirePayload> {
    match kind {
        BinarySignalType::AdaptiveSpreadDeviation => take_adaptive(s),
        BinarySignalType::FixedSpreadDeviation => take_fixed(s),
        BinarySignalType::FundingRateDirection => take_funding(s),
        BinarySignalType::RealTimeFundingRisk => take_funding_risk(s),
        BinarySignalType::OrderResponse => take_order_response(s),
    }
}

/// Splits id, symbol, exchange and timestamp off the front of `s`.
pub open spec fn take_header(s: Seq<u8>) -> Parsed<WireHeader> {
    match take_string(s) {
        Err(e) => Err(e),
        Ok((id, s1)) =>         match take_string(s1) {
            Err(e) => Err(e),
            Ok((symbol, s2)) =>             match take_string(s2) {
                Err(e) => Err(e),
                Ok((exchange, s3)) =>                 match take_timestamp(s3) {
                    Err(e) => Err(e),
                    Ok((timestamp, s4)) => Ok((WireHeader { id, symbol, exchange, timestamp }, s4)),
                },
            },
        },
    }
}

/// The signal that the bytes stand for, or why they stand for none. Bytes
/// after the payload are ignored: a bus slot is longer than its message.
pub open spec fn decode_signal(s: Seq<u8>) -> Result<WireSignal, DecodeError> {
    match take_u32(s) {
        Err(e) => Err(e),
        Ok((tag, s1)) => match BinarySignalType::from_code_spec(tag) {
            None => Err(DecodeError::InvalidSignalType),
            Some(kind) => match take_header(s1) {
                Err(e) => Err(e),
                Ok((h, s2)) => match take_payload(kind, s2) {
                    Err(e) => Err(e),
                    Ok((payload, _)) => Ok(
                        WireSignal {
                            kind: kind.signal_type_spec(),
                            id: h.id,
                            symbol: h.symbol,
                            exchange: h.exchange,
                            timestamp: h.timestamp,
                            payload,
                        },
                    ),
                },
            },
        },
    }
}

/// A payload is read back as it was written, whatever follows it.
pub proof fn lemma_take_put_payload(p: WirePayload, rest: Seq<u8>)
    requires
        p.kind() is Some,
        p.strings_fit(),
    ensures
        take_payload(p.kind()->0, put_payload(p, rest)) == Ok::<(WirePayload, Seq<u8>), DecodeError>(
            (p, rest),
        ),
{
    broadcast use group_take_put;

}

/// Decoding undoes encoding: every well-formed signal comes back from its
/// bytes as it went in.
pub proof fn lemma_signal_roundtrip(w: WireSignal)
    ensures
        w.wf() ==> decode_signal(encode_signal(w)) == Ok::<WireSignal, DecodeError>(w),
{
    broadcast use group_take_put;

    if w.wf() {
        let body = put_payload(w.payload, Seq::empty());
        lemma_take_put_payload(w.payload, Seq::empty());
        assert(take_header(
            put_string(w.id, put_string(w.symbol, put_string(w.exchange, put_timestamp(w.timestamp, body)))),
        ) == Ok::<(WireHeader, Seq<u8>), DecodeError>(
            (WireHeader { id: w.id, symbol: w.symbol, exchange: w.exchange, timestamp: w.timestamp }, body),
        ));
    }
}

/// Encoding is a function of what the wire carries: two signals that
/// agree on it have the same bytes.
pub proof fn lemma_signal_encoding_deterministic(a: Signal, b: Signal)
    requires
        a.wire_view() == b.wire_view(),
    ensures
        encode_signal(a.wire_view()) == encode_signal(b.wire_view()),
{
}

/// Appends the payload of a signal to `buf`.
fn write_payload(buf: &mut Vec<u8>, data: &SignalData)
    ensures
        appended(old(buf)@, final(buf)@, |rest: Seq<u8>| put_payload(data.wire_view(), rest)),
{
    match data {
        SignalData::AdaptiveSpreadDeviation { exchange_id, symbol_id, spread_percentile, current_spread, threshold_percentile } => {
            write_u32(buf, *exchange_id);
            write_u32(buf, *symbol_id);
            write_real(buf, *spread_percentile);
            write_real(buf, *current_spread);
            write_real(buf, *threshold_percentile);
        },
        SignalData::FixedSpreadDeviation { exchange_id, symbol_id, current_spread, fixed_threshold } => {
            write_u32(buf, *exchange_id);
            write_u32(buf, *symbol_id);
            write_real(buf, *current_spread);
            write_real(buf, *fixed_threshold);
        },
        SignalData::FundingRateDirection { exchange_id, symbol_id, funding_rate, direction } => {
            write_u32(buf, *exchange_id);
            write_u32(buf, *symbol_id);
            write_real(buf, *funding_rate);
            write_direction(buf, *direction);
        },
        SignalData::RealTimeFundingRisk { exchange_id, symbol_id, risk_level, funding_rate, position_cost } => {
            write_u32(buf, *exchange_id);
            write_u32(buf, *symbol_id);
            write_risk_level(buf, *risk_level);
            write_real(buf, *funding_rate);
            write_real(buf, *position_cost);
        },
        SignalData::OrderResponse { order_id, exchange_id, symbol_id, status } => {
            write_string(buf, order_id.as_str());
            write_u32(buf, *exchange_id);
            write_u32(buf, *symbol_id);
            write_response_status(buf, *status);
        },
        _ => {
            proof {
                assert forall|rest: Seq<u8>| #[trigger] (buf@ + rest) == old(buf)@ + rest by {}
            }
        },
    }
}

/// Reads the payload of the given kind at `pos`.
fn read_payload(kind: BinarySignalType, buf: &[u8], pos: usize) -> (r: Result<
    (SignalData, usize),
    DecodeError,
>)
    requires
        pos <= buf@.len(),
    ensures
        match r {
            Ok((d, next)) => pos <= next <= buf@.len() && take_payload(kind, tail(buf@, pos)) == Ok::<
                (WirePayload, Seq<u8>),
                DecodeError,
            >((d.wire_view(), tail(buf@, next))),
            Err(e) => take_payload(kind, tail(buf@, pos)) == Err::<(WirePayload, Seq<u8>), DecodeError>(
                e,
            ),
        },
{
    match kind {
        BinarySignalType::AdaptiveSpreadDeviation => {
            let (exchange_id, at1) = read_u32(buf, pos)?;
            let (symbol_id, at2) = read_u32(buf, at1)?;
            let (spread_percentile, at3) = read_real(buf, at2)?;
            let (current_spread, at4) = read_real(buf, at3)?;
            let (threshold_percentile, at5) = read_real(buf, at4)?;
            Ok((SignalData::AdaptiveSpreadDeviation { exchange_id, symbol_id, spread_percentile, current_spread, threshold_percentile }, at5))
        },
        BinarySignalType::FixedSpreadDeviation => {
            let (exchange_id, at1) = read_u32(buf, pos)?;
            let (symbol_id, at2) = read_u32(buf, at1)?;
            let (current_spread, at3) = read_real(buf, at2)?;
            let (fixed_threshold, at4) = read_real(buf, at3)?;
            Ok((SignalData::FixedSpreadDeviation { exchange_id, symbol_id, current_spread, fixed_threshold }, at4))
        },
        BinarySignalType::FundingRateDirection => {
            let (exchange_id, at1) = read_u32(buf, pos)?;
            let (symbol_id, at2) = read_u32(buf, at1)?;
            let (funding_rate, at3) = read_real(buf, at2)?;
            let (direction, at4) = read_direction(buf, at3)?;
            Ok((SignalData::FundingRateDirection { exchange_id, symbol_id, funding_rate, direction }, at4))
        },
        BinarySignalType::RealTimeFundingRisk => {
            let (exchange_id, at1) = read_u32(buf, pos)?;
            let (symbol_id, at2) = read_u32(buf, at1)?;
            let (risk_level, at3) = read_risk_level(buf, at2)?;
            let (funding_rate, at4) = read_real(buf, at3)?;
            let (position_cost, at5) = read_real(buf, at4)?;
            Ok((SignalData::RealTimeFundingRisk { exchange_id, symbol_id, risk_level, funding_rate, position_cost }, at5))
        },
        BinarySignalType::OrderResponse => {
            let (order_id, at1) = read_string(buf, pos)?;
            let (exchange_id, at2) = read_u32(buf, at1)?;
            let (symbol_id, at3) = read_u32(buf, at2)?;
            let (status, at4) = read_response_status(buf, at3)?;
            Ok((SignalData::OrderResponse { order_id, exchange_id, symbol_id, status }, at4))
        },
    }
}

impl Signal {
    /// The bytes of the signal: what [`encode_signal`] says of the fields
    /// that the wire carries.
    pub fn to_bytes(&self) -> (r: Vec<u8>)
        ensures
            r@ == encode_signal(self.wire_view()),
    {
        let mut buf: Vec<u8> = Vec::with_capacity(256);
        let tag: u32 = self.signal_type.index() as u32;
        write_u32(&mut buf, tag);
        write_string(&mut buf, self.id.as_str());
        write_string(&mut buf, self.symbol.as_str());
        write_string(&mut buf, self.exchange.as_str());
        write_timestamp(&mut buf, self.timestamp);
        write_payload(&mut buf, &self.data);
        proof {
            assert(buf@ + Seq::<u8>::empty() =~= buf@);
        }
        buf
    }

    /// The signal that the bytes stand for, with what [`Signal::new`] gives
    /// to the fields that the wire does not carry; or the reason why the
    /// bytes stand for none, as [`decode_signal`] tells it.
    pub fn from_bytes(buf: &[u8]) -> (r: Result<Signal, DecodeError>)
        ensures
            match r {
                Ok(s) => decode_signal(buf@) == Ok::<WireSignal, DecodeError>(s.wire_view())
                    && s.has_default_routing(),
                Err(e) => decode_signal(buf@) == Err::<WireSignal, DecodeError>(e),
            },
    {
        proof {
            assert(tail(buf@, 0) =~= buf@);
        }
        let (tag, at1) = read_u32(buf, 0)?;
        let kind = match BinarySignalType::from_code(tag) {
            Some(k) => k,
            None => {
                return Err(DecodeError::InvalidSignalType);
            },
        };
        let (id, at2) = read_string(buf, at1)?;
        let (symbol, at3) = read_string(buf, at2)?;
        let (exchange, at4) = read_string(buf, at3)?;
        let (timestamp, at5) = read_timestamp(buf, at4)?;
        let (data, _) = read_payload(kind, buf, at5)?;
        let mut signal = Signal::new(id, kind.signal_type(), data, timestamp);
        signal.symbol = symbol;
        signal.exchange = exchange;
        Ok(signal)
    }
}

impl EventView {
    /// The kind of the event.
    pub open spec fn kind(self) -> EventType {
        match self {
            EventView::OpenPosition { .. } => EventType::OpenPosition,
            EventView::ClosePosition { .. } => EventType::ClosePosition,
            EventView::HedgePosition { .. } => EventType::HedgePosition,
            EventView::CancelOrder { .. } => EventType::CancelOrder,
            EventView::ModifyOrder { .. } => EventType::ModifyOrder,
        }
    }

    /// The event is one that the decoder returns: its strings are short
    /// enough for their length prefixes and the calendar can name its
    /// timestamp.
    pub open spec fn wf(self) -> bool {
        match self {
            EventView::OpenPosition { reason, timestamp, .. } => {
                &&& encode_utf8(reason).len() < TWO_TO_32
                &&& calendar_accepts(timestamp)
            },
            EventView::ClosePosition { reason, timestamp, .. } => {
                &&& encode_utf8(reason).len() < TWO_TO_32
                &&& calendar_accepts(timestamp)
            },
            EventView::HedgePosition { reason, timestamp, .. } => {
                &&& encode_utf8(reason).len() < TWO_TO_32
                &&& calendar_accepts(timestamp)
            },
            EventView::CancelOrder { order_id, reason, timestamp, .. } => {
                &&& encode_utf8(order_id).len() < TWO_TO_32
                &&& encode_utf8(reason).len() < TWO_TO_32
                &&& calendar_accepts(timestamp)
            },
            EventView::ModifyOrder { order_id, reason, timestamp, .. } => {
                &&& encode_utf8(order_id).len() < TWO_TO_32
                &&& encode_utf8(reason).len() < TWO_TO_32
                &&& calendar_accepts(timestamp)
            },
        }
    }
}

/// The bytes of an event body, followed by `rest`.
pub open spec fn put_event(ev: EventView, rest: Seq<u8>) -> Seq<u8> {
    match ev {
        EventView::OpenPosition { symbol, exchange, side, quantity, order_type, price, trigger_type, reason, timestamp } => put_u32(
            0,
            put_symbol(symbol, put_exchange(exchange, put_side(side, put_real(quantity, put_order_type(order_type, put_opt_real(price, put_trigger_type(trigger_type, put_string(reason, put_timestamp(timestamp, rest))))))))),
        ),
        EventView::ClosePosition { symbol, exchange, side, quantity, order_type, price, trigger_type, reason, timestamp } => put_u32(
            1,
            put_symbol(symbol, put_exchange(exchange, put_side(side, put_real(quantity, put_order_type(order_type, put_opt_real(price, put_trigger_type(trigger_type, put_string(reason, put_timestamp(timestamp, rest))))))))),
        ),
        EventView::HedgePosition { symbol, primary_exchange, hedge_exchange, side, quantity, trigger_type, reason, timestamp } => put_u32(
            2,
            put_symbol(symbol, put_exchange(primary_exchange, put_exchange(hedge_exchange, put_side(side, put_real(quantity, put_trigger_type(trigger_type, put_string(reason, put_timestamp(timestamp, rest)))))))),
        ),
        EventView::CancelOrder { order_id, symbol, exchange, reason, timestamp } => put_u32(
            3,
            put_string(order_id, put_symbol(symbol, put_exchange(exchange, put_string(reason, put_timestamp(timestamp, rest))))),
        ),
        EventView::ModifyOrder { order_id, symbol, exchange, new_price, new_quantity, reason, timestamp } => put_u32(
            4,
            put_string(order_id, put_symbol(symbol, put_exchange(exchange, put_opt_real(new_price, put_opt_real(new_quantity, put_string(reason, put_timestamp(timestamp, rest))))))),
        ),
    }
}

pub open spec fn take_open(s: Seq<u8>) -> Parsed<EventView> {
    match take_symbol(s) {
        Err(e) => Err(e),
        Ok((symbol, s1)) =>         match take_exchange(s1) {
            Err(e) => Err(e),
            Ok((exchange, s2)) =>             match take_side(s2) {
                Err(e) => Err(e),
                Ok((side, s3)) =>                 match take_real(s3) {
                    Err(e) => Err(e),
                    Ok((quantity, s4)) =>                     match take_order_type(s4) {
                        Err(e) => Err(e),
                        Ok((order_type, s5)) =>                         match take_opt_real(s5) {
                            Err(e) => Err(e),
                            Ok((price, s6)) =>                             match take_trigger_type(s6) {
                                Err(e) => Err(e),
                                Ok((trigger_type, s7)) =>                                 match take_string(s7) {
                                    Err(e) => Err(e),
                                    Ok((reason, s8)) =>                                     match take_timestamp(s8) {
                                        Err(e) => Err(e),
                                        Ok((timestamp, s9)) => Ok((EventView::OpenPosition { symbol, exchange, side, quantity, order_type, price, trigger_type, reason, timestamp }, s9)),
                                    },
                                },
                            },
                        },
                    },
                },
            },
        },
    }
}

pub open spec fn take_close(s: Seq<u8>) -> Parsed<EventView> {
    match take_symbol(s) {
        Err(e) => Err(e),
        Ok((symbol, s1)) =>         match take_exchange(s1) {
            Err(e) => Err(e),
            Ok((exchange, s2)) =>             match take_side(s2) {
                Err(e) => Err(e),
                Ok((side, s3)) =>                 match take_real(s3) {
                    Err(e) => Err(e),
                    Ok((quantity, s4)) =>                     match take_order_type(s4) {
                        Err(e) => Err(e),
                        Ok((order_type, s5)) =>                         match take_opt_real(s5) {
                            Err(e) => Err(e),
                            Ok((price, s6)) =>                             match take_trigger_type(s6) {
                                Err(e) => Err(e),
                                Ok((trigger_type, s7)) =>                                 match take_string(s7) {
                                    Err(e) => Err(e),
                                    Ok((reason, s8)) =>                                     match take_timestamp(s8) {
                                        Err(e) => Err(e),
                                        Ok((timestamp, s9)) => Ok((EventView::ClosePosition { symbol, exchange, side, quantity, order_type, price, trigger_type, reason, timestamp }, s9)),
                                    },
                                },
                            },
                        },
                    },
                },
            },
        },
    }
}

pub open spec fn take_hedge(s: Seq<u8>) -> Parsed<EventView> {
    match take_symbol(s) {
        Err(e) => Err(e),
        Ok((symbol, s1)) =>         match take_exchange(s1) {
            Err(e) => Err(e),
            Ok((primary_exchange, s2)) =>             match take_exchange(s2) {
                Err(e) => Err(e),
                Ok((hedge_exchange, s3)) =>                 match take_side(s3) {
                    Err(e) => Err(e),
                    Ok((side, s4)) =>                     match take_real(s4) {
                        Err(e) => Err(e),
                        Ok((quantity, s5)) =>                         match take_trigger_type(s5) {
                            Err(e) => Err(e),
                            Ok((trigger_type, s6)) =>                             match take_string(s6) {
                                Err(e) => Err(e),
                                Ok((reason, s7)) =>                                 match take_timestamp(s7) {
                                    Err(e) => Err(e),
                                    Ok((timestamp, s8)) => Ok((EventView::HedgePosition { symbol, primary_exchange, hedge_exchange, side, quantity, trigger_type, reason, timestamp }, s8)),
                                },
                            },
                        },
                    },
                },
            },
        },
    }
}

pub open spec fn take_cancel(s: Seq<u8>) -> Parsed<EventView> {
    match take_string(s) {
        Err(e) => Err(e),
        Ok((order_id, s1)) =>         match take_symbol(s1) {
            Err(e) => Err(e),
            Ok((symbol, s2)) =>             match take_exchange(s2) {
                Err(e) => Err(e),
                Ok((exchange, s3)) =>                 match take_string(s3) {
                    Err(e) => Err(e),
                    Ok((reason, s4)) =>                     match take_timestamp(s4) {
                        Err(e) => Err(e),
                        Ok((timestamp, s5)) => Ok((EventView::CancelOrder { order_id, symbol, exchange, reason, timestamp }, s5)),
                    },
                },
            },
        },
    }
}

pub open spec fn take_modify(s: Seq<u8>) -> Parsed<EventView> {
    match take_string(s) {
        Err(e) => Err(e),
        Ok((order_id, s1)) =>         match take_symbol(s1) {
            Err(e) => Err(e),
            Ok((symbol, s2)) =>             match take_exchange(s2) {
                Err(e) => Err(e),
                Ok((exchange, s3)) =>                 match take_opt_real(s3) {
                    Err(e) => Err(e),
                    Ok((new_price, s4)) =>                     match take_opt_real(s4) {
                        Err(e) => Err(e),
                        Ok((new_quantity, s5)) =>                         match take_string(s5) {
                            Err(e) => Err(e),
                            Ok((reason, s6)) =>                             match take_timestamp(s6) {
                                Err(e) => Err(e),
                                Ok((timestamp, s7)) => Ok((EventView::ModifyOrder { order_id, symbol, exchange, new_price, new_quantity, reason, timestamp }, s7)),
                            },
                        },
                    },
                },
            },
        },
    }
}

/// Splits an event body off the front of `s`.
pub open spec fn take_event(s: Seq<u8>) -> Parsed<EventView> {
    match take_u32(s) {
        Err(e) => Err(e),
        Ok((tag, s1)) => match EventType::from_code_spec(tag) {
            None => Err(DecodeError::InvalidEventType),
            Some(EventType::OpenPosition) => take_open(s1),
            Some(EventType::ClosePosition) => take_close(s1),
            Some(EventType::HedgePosition) => take_hedge(s1),
            Some(EventType::CancelOrder) => take_cancel(s1),
            Some(EventType::ModifyOrder) => take_modify(s1),
        },
    }
}

proof fn lemma_take_open(ev: EventView, rest: Seq<u8>)
    requires
        ev is OpenPosition,
        ev.wf(),
    ensures
        take_event(put_event(ev, rest)) == Ok::<(EventView, Seq<u8>), DecodeError>((ev, rest)),
{
    broadcast use group_take_put;

}

proof fn lemma_take_close(ev: EventView, rest: Seq<u8>)
    requires
        ev is ClosePosition,
        ev.wf(),
    ensures
        take_event(put_event(ev, rest)) == Ok::<(EventView, Seq<u8>), DecodeError>((ev, rest)),
{
    broadcast use group_take_put;

}

proof fn lemma_take_hedge(ev: EventView, rest: Seq<u8>)
    requires
        ev is HedgePosition,
        ev.wf(),
    ensures
        take_event(put_event(ev, rest)) == Ok::<(EventView, Seq<u8>), DecodeError>((ev, rest)),
{
    broadcast use group_take_put;

}

proof fn lemma_take_cancel(ev: EventView, rest: Seq<u8>)
    requires
        ev is CancelOrder,
        ev.wf(),
    ensures
        take_event(put_event(ev, rest)) == Ok::<(EventView, Seq<u8>), DecodeError>((ev, rest)),
{
    broadcast use group_take_put;

}

proof fn lemma_take_modify(ev: EventView, rest: Seq<u8>)
    requires
        ev is ModifyOrder,
        ev.wf(),
    ensures
        take_event(put_event(ev, rest)) == Ok::<(EventView, Seq<u8>), DecodeError>((ev, rest)),
{
    broadcast use group_take_put;

}

/// An event body is read back as it was written, whatever follows it.
pub proof fn lemma_take_put_event(ev: EventView, rest: Seq<u8>)
    requires
        ev.wf(),
    ensures
        take_event(put_event(ev, rest)) == Ok::<(EventView, Seq<u8>), DecodeError>((ev, rest)),
{
    match ev {
        EventView::OpenPosition { .. } => lemma_take_open(ev, rest),
        EventView::ClosePosition { .. } => lemma_take_close(ev, rest),
        EventView::HedgePosition { .. } => lemma_take_hedge(ev, rest),
        EventView::CancelOrder { .. } => lemma_take_cancel(ev, rest),
        EventView::ModifyOrder { .. } => lemma_take_modify(ev, rest),
    }
}

impl EventMessageView {
    /// The message is one that the decoder returns.
    pub open spec fn wf(self) -> bool {
        self.event.wf() && calendar_accepts(self.timestamp)
    }
}

/// The bytes of the trailer of an event message: the sequence id, then
/// the timestamp.
pub open spec fn put_trailer(sequence_id: u64, timestamp: i64) -> Seq<u8> {
    put_u64(sequence_id, put_timestamp(timestamp, Seq::empty()))
}

/// The bytes of an event message: the event body, then the trailer.
pub open spec fn encode_event_message(m: EventMessageView) -> Seq<u8> {
    put_event(m.event, Seq::empty()) + put_trailer(m.sequence_id, m.timestamp)
}

/// The event message that the bytes stand for, or why they stand for
/// none. The last sixteen bytes are the sequence id and the timestamp; the
/// event body is everything before them, to the last byte.
pub open spec fn decode_event_message(s: Seq<u8>) -> Result<EventMessageView, DecodeError> {
    if s.len() < 16 {
        Err(DecodeError::Truncated)
    } else {
        match take_event(s.subrange(0, s.len() - 16)) {
            Err(e) => Err(e),
            Ok((event, rest)) => if rest.len() != 0 {
                Err(DecodeError::TrailingBytes)
            } else {
                match take_u64(s.skip(s.len() - 16)) {
                    Err(e) => Err(e),
                    Ok((sequence_id, s1)) => match take_timestamp(s1) {
                        Err(e) => Err(e),
                        Ok((timestamp, _)) => Ok(EventMessageView { event, sequence_id, timestamp }),
                    },
                }
            },
        }
    }
}

/// Appends the body of an event to `buf`.
fn write_event(buf: &mut Vec<u8>, event: &TradingEvent)
    ensures
        appended(old(buf)@, final(buf)@, |rest: Seq<u8>| put_event(event@, rest)),
{
    match event {
        TradingEvent::OpenPosition(ev) => {
            write_u32(buf, 0);
            write_symbol(buf, ev.symbol);
            write_exchange(buf, ev.exchange);
            write_side(buf, ev.side);
            write_real(buf, ev.quantity);
            write_order_type(buf, ev.order_type);
            write_opt_real(buf, ev.price);
            write_trigger_type(buf, ev.trigger_type);
            write_string(buf, ev.reason.as_str());
            write_timestamp(buf, ev.timestamp);
        },
        TradingEvent::ClosePosition(ev) => {
            write_u32(buf, 1);
            write_symbol(buf, ev.symbol);
            write_exchange(buf, ev.exchange);
            write_side(buf, ev.side);
            write_real(buf, ev.quantity);
            write_order_type(buf, ev.order_type);
            write_opt_real(buf, ev.price);
            write_trigger_type(buf, ev.trigger_type);
            write_string(buf, ev.reason.as_str());
            write_timestamp(buf, ev.timestamp);
        },
        TradingEvent::HedgePosition(ev) => {
            write_u32(buf, 2);
            write_symbol(buf, ev.symbol);
            write_exchange(buf, ev.primary_exchange);
            write_exchange(buf, ev.hedge_exchange);
            write_side(buf, ev.side);
            write_real(buf, ev.quantity);
            write_trigger_type(buf, ev.trigger_type);
            write_string(buf, ev.reason.as_str());
            write_timestamp(buf, ev.timestamp);
        },
        TradingEvent::CancelOrder(ev) => {
            write_u32(buf, 3);
            write_string(buf, ev.order_id.as_str());
            write_symbol(buf, ev.symbol);
            write_exchange(buf, ev.exchange);
            write_string(buf, ev.reason.as_str());
            write_timestamp(buf, ev.timestamp);
        },
        TradingEvent::ModifyOrder(ev) => {
            write_u32(buf, 4);
            write_string(buf, ev.order_id.as_str());
            write_symbol(buf, ev.symbol);
            write_exchange(buf, ev.exchange);
            write_opt_real(buf, ev.new_price);
            write_opt_real(buf, ev.new_quantity);
            write_string(buf, ev.reason.as_str());
            write_timestamp(buf, ev.timestamp);
        },
    }
}

/// Reads the body of an event at `pos`.
fn read_event(buf: &[u8], pos: usize) -> (r: Result<(TradingEvent, usize), DecodeError>)
    requires
        pos <= buf@.len(),
    ensures
        match r {
            Ok((ev, next)) => pos <= next <= buf@.len() && take_event(tail(buf@, pos)) == Ok::<
                (EventView, Seq<u8>),
                DecodeError,
            >((ev@, tail(buf@, next))),
            Err(e) => take_event(tail(buf@, pos)) == Err::<(EventView, Seq<u8>), DecodeError>(e),
        },
{
    let (tag, at0) = read_u32(buf, pos)?;
    let kind = match EventType::from_code(tag) {
        Some(k) => k,
        None => {
            return Err(DecodeError::InvalidEventType);
        },
    };
    match kind {
        EventType::OpenPosition => {
            let (symbol, at1) = read_symbol(buf, at0)?;
            let (exchange, at2) = read_exchange(buf, at1)?;
            let (side, at3) = read_side(buf, at2)?;
            let (quantity, at4) = read_real(buf, at3)?;
            let (order_type, at5) = read_order_type(buf, at4)?;
            let (price, at6) = read_opt_real(buf, at5)?;
            let (trigger_type, at7) = read_trigger_type(buf, at6)?;
            let (reason, at8) = read_string(buf, at7)?;
            let (timestamp, at9) = read_timestamp(buf, at8)?;
            Ok((TradingEvent::OpenPosition(OpenPositionEvent { symbol, exchange, side, quantity, order_type, price, trigger_type, reason, timestamp }), at9))
        },
        EventType::ClosePosition => {
            let (symbol, at1) = read_symbol(buf, at0)?;
            let (exchange, at2) = read_exchange(buf, at1)?;
            let (side, at3) = read_side(buf, at2)?;
            let (quantity, at4) = read_real(buf, at3)?;
            let (order_type, at5) = read_order_type(buf, at4)?;
            let (price, at6) = read_opt_real(buf, at5)?;
            let (trigger_type, at7) = read_trigger_type(buf, at6)?;
            let (reason, at8) = read_string(buf, at7)?;
            let (timestamp, at9) = read_timestamp(buf, at8)?;
            Ok((TradingEvent::ClosePosition(ClosePositionEvent { symbol, exchange, side, quantity, order_type, price, trigger_type, reason, timestamp }), at9))
        },
        EventType::HedgePosition => {
            let (symbol, at1) = read_symbol(buf, at0)?;
            let (primary_exchange, at2) = read_exchange(buf, at1)?;
            let (hedge_exchange, at3) = read_exchange(buf, at2)?;
            let (side, at4) = read_side(buf, at3)?;
            let (quantity, at5) = read_real(buf, at4)?;
            let (trigger_type, at6) = read_trigger_type(buf, at5)?;
            let (reason, at7) = read_string(buf, at6)?;
            let (timestamp, at8) = read_timestamp(buf, at7)?;
            Ok((TradingEvent::HedgePosition(HedgePositionEvent { symbol, primary_exchange, hedge_exchange, side, quantity, trigger_type, reason, timestamp }), at8))
        },
        EventType::CancelOrder => {
            let (order_id, at1) = read_string(buf, at0)?;
            let (symbol, at2) = read_symbol(buf, at1)?;
            let (exchange, at3) = read_exchange(buf, at2)?;
            let (reason, at4) = read_string(buf, at3)?;
            let (timestamp, at5) = read_timestamp(buf, at4)?;
            Ok((TradingEvent::CancelOrder(CancelOrderEvent { order_id, symbol, exchange, reason, timestamp }), at5))
        },
        EventType::ModifyOrder => {
            let (order_id, at1) = read_string(buf, at0)?;
            let (symbol, at2) = read_symbol(buf, at1)?;
            let (exchange, at3) = read_exchange(buf, at2)?;
            let (new_price, at4) = read_opt_real(buf, at3)?;
            let (new_quantity, at5) = read_opt_real(buf, at4)?;
            let (reason, at6) = read_string(buf, at5)?;
            let (timestamp, at7) = read_timestamp(buf, at6)?;
            Ok((TradingEvent::ModifyOrder(ModifyOrderEvent { order_id, symbol, exchange, new_price, new_quantity, reason, timestamp }), at7))
        },
    }
}

/// Decoding undoes encoding: every well-formed event message comes back
/// from its bytes as it went in.
pub proof fn lemma_event_message_roundtrip(m: EventMessageView)
    ensures
        m.wf() ==> decode_event_message(encode_event_message(m)) == Ok::<
            EventMessageView,
            DecodeError,
        >(m),
{
    broadcast use group_take_put;

    if m.wf() {
        let e = Seq::<u8>::empty();
        let body = put_event(m.event, e);
        let trailer = put_trailer(m.sequence_id, m.timestamp);
        let s = encode_event_message(m);
        lemma_put_u64_len(i64_bits(m.timestamp), e);
        lemma_put_u64_len(m.sequence_id, put_timestamp(m.timestamp, e));
        assert(s.subrange(0, s.len() - 16) =~= body);
        assert(s.skip(s.len() - 16) =~= trailer);
        lemma_take_put_event(m.event, e);
    }
}

/// Encoding is a function of the content: two messages with the same
/// content have the same bytes.
pub proof fn lemma_event_encoding_deterministic(a: EventMessage, b: EventMessage)
    requires
        a@ == b@,
    ensures
        encode_event_message(a@) == encode_event_message(b@),
{
}

impl EventMessage {
    /// The bytes of the message, as [`encode_event_message`] tells them.
    pub fn to_bytes(&self) -> (r: Vec<u8>)
        ensures
            r@ == encode_event_message(self@),
    {
        let mut buf: Vec<u8> = Vec::with_capacity(256);
        write_event(&mut buf, &self.event);
        let ghost body = buf@;
        write_u64(&mut buf, self.sequence_id);
        write_timestamp(&mut buf, self.timestamp);
        proof {
            assert(body + Seq::<u8>::empty() =~= body);
            assert(buf@ + Seq::<u8>::empty() =~= buf@);
        }
        buf
    }

    /// The message that the bytes stand for, or the reason why they stand
    /// for none, as [`decode_event_message`] tells it.
    pub fn from_bytes(buf: &[u8]) -> (r: Result<EventMessage, DecodeError>)
        ensures
            match r {
                Ok(m) => decode_event_message(buf@) == Ok::<EventMessageView, DecodeError>(m@),
                Err(e) => decode_event_message(buf@) == Err::<EventMessageView, DecodeError>(e),
            },
    {
        if buf.len() < 16 {
            return Err(DecodeError::Truncated);
        }
        let split: usize = buf.len() - 16;
        let body = slice_subrange(buf, 0, split);
        proof {
            assert(tail(body@, 0) =~= body@);
            assert(tail(buf@, split) =~= buf@.skip(buf@.len() - 16));
        }
        let (event, end) = read_event(body, 0)?;
        if end != split {
            return Err(DecodeError::TrailingBytes);
        }
        let (sequence_id, at1) = read_u64(buf, split)?;
        let (timestamp, _) = read_timestamp(buf, at1)?;
        Ok(EventMessage { event, sequence_id, timestamp })
    }
}

} // verus!
