//! The vocabulary of the system: venues, sides, order kinds, signals and
//! execution reports.
//!
//! Points in time are milliseconds since the Unix epoch. A 64-bit IEEE 754
//! number travels as its bit pattern ([`Real`]); amounts of money and
//! quantities are [`Decimal`]s.

use vstd::prelude::*;
use crate::common::decimal::Decimal;

verus! {

/// Dense numeric id of a tradable symbol.
#[derive(Debug, Clone, Copy, PartialEq, Eq, Hash, Structural)]
pub struct Symbol(pub u32);

/// A 64-bit IEEE 754 number, held as its bit pattern.
#[derive(Debug, Clone, Copy, PartialEq, Eq, Hash, Structural)]
pub struct Real {
    pub bits: u64,
}

#[derive(Debug, Clone, Copy, PartialEq, Eq, Hash, Structural)]
pub enum Exchange {
    Binance,
    OKX,
    Bybit,
    Bitget,
}

#[derive(Debug, Clone, Copy, PartialEq, Eq, Structural)]
pub enum Side {
    Buy,
    Sell,
}

#[derive(Debug, Clone, Copy, PartialEq, Eq, Structural)]
pub enum OrderType {
    Market,
    Limit,
    PostOnly,
}

#[derive(Debug, Clone, Copy, PartialEq, Eq, Structural)]
pub enum TimeInForce {
    /// Good till cancel.
    GTC,
    /// Immediate or cancel.
    IOC,
    /// Fill or kill.
    FOK,
    /// Good till cross.
    GTX,
}

#[derive(Debug, Clone, Copy, PartialEq, Eq, Structural)]
pub enum OrderStatus {
    Pending,
    Placed,
    PartiallyFilled,
    Filled,
    Cancelled,
    Rejected,
}

#[derive(Debug, Clone, Copy, PartialEq, Eq, Structural)]
pub enum TriggerType {
    MTTrigger,
    MTCloseTrigger,
    HedgeTrigger,
}

#[derive(Debug, Clone, Copy, PartialEq, Eq, Structural)]
pub enum Priority {
    High,
    Medium,
    Low,
}

#[derive(Debug, Clone, Copy, PartialEq, Eq, Structural)]
pub enum ExecutionType {
    New,
    Trade,
    Cancelled,
    Rejected,
    Expired,
}

/// The kind of a signal. The first five kinds travel on the wire; the
/// others exist only inside the processor.
#[derive(Debug, Clone, Copy, PartialEq, Eq, Hash, Structural)]
pub enum SignalType {
    AdaptiveSpreadDeviation,
    FixedSpreadDeviation,
    FundingRateDirection,
    RealTimeFundingRisk,
    OrderResponse,
    Arbitrage,
    Market,
    Hedge,
    RiskControlInit,
}

#[derive(Debug, Clone, Copy, PartialEq, Eq, Structural)]
pub enum FundingDirection {
    Positive,
    Negative,
    Neutral,
}

#[derive(Debug, Clone, Copy, PartialEq, Eq, Structural)]
pub enum RiskLevel {
    Low,
    Medium,
    High,
    Critical,
}

#[derive(Debug, Clone, Copy, PartialEq, Eq, Structural)]
pub enum OrderResponseStatus {
    Filled,
    PartiallyFilled,
    Rejected,
    Cancelled,
}

impl SignalType {
    /// Dense index of the kind, in declaration order.
    pub open spec fn index_spec(self) -> nat {
        match self {
            SignalType::AdaptiveSpreadDeviation => 0,
            SignalType::FixedSpreadDeviation => 1,
            SignalType::FundingRateDirection => 2,
            SignalType::RealTimeFundingRisk => 3,
            SignalType::OrderResponse => 4,
            SignalType::Arbitrage => 5,
            SignalType::Market => 6,
            SignalType::Hedge => 7,
            SignalType::RiskControlInit => 8,
        }
    }

    /// Dense index of the kind, in declaration order.
    pub fn index(self) -> (r: usize)
        ensures
            r == self.index_spec(),
            r < 9,
    {
        match self {
            SignalType::AdaptiveSpreadDeviation => 0,
            SignalType::FixedSpreadDeviation => 1,
            SignalType::FundingRateDirection => 2,
            SignalType::RealTimeFundingRisk => 3,
            SignalType::OrderResponse => 4,
            SignalType::Arbitrage => 5,
            SignalType::Market => 6,
            SignalType::Hedge => 7,
            SignalType::RiskControlInit => 8,
        }
    }
}

/// The payload of a signal, by kind.
#[derive(Debug)]
pub enum SignalData {
    AdaptiveSpreadDeviation {
        exchange_id: u32,
        symbol_id: u32,
        spread_percentile: Real,
        current_spread: Real,
        threshold_percentile: Real,
    },
    FixedSpreadDeviation { exchange_id: u32, symbol_id: u32, current_spread: Real, fixed_threshold: Real },
    FundingRateDirection {
        exchange_id: u32,
        symbol_id: u32,
        funding_rate: Real,
        direction: FundingDirection,
    },
    RealTimeFundingRisk {
        exchange_id: u32,
        symbol_id: u32,
        risk_level: RiskLevel,
        funding_rate: Real,
        position_cost: Real,
    },
    OrderResponse { order_id: String, exchange_id: u32, symbol_id: u32, status: OrderResponseStatus },
    Arbitrage { arbitrage_id: String, pair: (String, String), expected_profit: Decimal },
    Market { market_data: String },
    Hedge { hedge_id: String, target_position: Decimal },
    RiskControlInit { protobuf_data: Vec<u8> },
}

impl SignalData {
    /// The kind that this payload belongs to.
    pub open spec fn kind_spec(self) -> SignalType {
        match self {
            SignalData::AdaptiveSpreadDeviation { .. } => SignalType::AdaptiveSpreadDeviation,
            SignalData::FixedSpreadDeviation { .. } => SignalType::FixedSpreadDeviation,
            SignalData::FundingRateDirection { .. } => SignalType::FundingRateDirection,
            SignalData::RealTimeFundingRisk { .. } => SignalType::RealTimeFundingRisk,
            SignalData::OrderResponse { .. } => SignalType::OrderResponse,
            SignalData::Arbitrage { .. } => SignalType::Arbitrage,
            SignalData::Market { .. } => SignalType::Market,
            SignalData::Hedge { .. } => SignalType::Hedge,
            SignalData::RiskControlInit { .. } => SignalType::RiskControlInit,
        }
    }

    /// The kind that this payload belongs to.
    pub fn kind(&self) -> (r: SignalType)
        ensures
            r == self.kind_spec(),
    {
        match self {
            SignalData::AdaptiveSpreadDeviation { .. } => SignalType::AdaptiveSpreadDeviation,
            SignalData::FixedSpreadDeviation { .. } => SignalType::FixedSpreadDeviation,
            SignalData::FundingRateDirection { .. } => SignalType::FundingRateDirection,
            SignalData::RealTimeFundingRisk { .. } => SignalType::RealTimeFundingRisk,
            SignalData::OrderResponse { .. } => SignalType::OrderResponse,
            SignalData::Arbitrage { .. } => SignalType::Arbitrage,
            SignalData::Market { .. } => SignalType::Market,
            SignalData::Hedge { .. } => SignalType::Hedge,
            SignalData::RiskControlInit { .. } => SignalType::RiskControlInit,
        }
    }
}

impl Exchange {
    /// The code of the variant on the wire: its position in the declaration.
    pub open spec fn code_spec(self) -> u32 {
        match self {
            Exchange::Binance => 0,
            Exchange::OKX => 1,
            Exchange::Bybit => 2,
            Exchange::Bitget => 3,
        }
    }

    /// The variant with the given wire code, if there is one.
    pub open spec fn from_code_spec(c: u32) -> Option<Exchange> {
        if c == 0 {
            Some(Exchange::Binance)
        } else if c == 1 {
            Some(Exchange::OKX)
        } else if c == 2 {
            Some(Exchange::Bybit)
        } else if c == 3 {
            Some(Exchange::Bitget)
        } else {
            None
        }
    }

    /// The code of the variant on the wire: its position in the declaration.
    pub fn code(self) -> (r: u32)
        ensures
            r == self.code_spec(),
            Exchange::from_code_spec(r) == Some(self),
    {
        match self {
            Exchange::Binance => 0,
            Exchange::OKX => 1,
            Exchange::Bybit => 2,
            Exchange::Bitget => 3,
        }
    }

    /// The variant with the given wire code, if there is one.
    pub fn from_code(c: u32) -> (r: Option<Exchange>)
        ensures
            r == Exchange::from_code_spec(c),
            r matches Some(v) ==> v.code_spec() == c,
    {
        if c == 0 {
            Some(Exchange::Binance)
        } else if c == 1 {
            Some(Exchange::OKX)
        } else if c == 2 {
            Some(Exchange::Bybit)
        } else if c == 3 {
            Some(Exchange::Bitget)
        } else {
            None
        }
    }
}

impl Side {
    /// The code of the variant on the wire: its position in the declaration.
    pub open spec fn code_spec(self) -> u32 {
        match self {
            Side::Buy => 0,
            Side::Sell => 1,
        }
    }

    /// The variant with the given wire code, if there is one.
    pub open spec fn from_code_spec(c: u32) -> Option<Side> {
        if c == 0 {
            Some(Side::Buy)
        } else if c == 1 {
            Some(Side::Sell)
        } else {
            None
        }
    }

    /// The code of the variant on the wire: its position in the declaration.
    pub fn code(self) -> (r: u32)
        ensures
            r == self.code_spec(),
            Side::from_code_spec(r) == Some(self),
    {
        match self {
            Side::Buy => 0,
            Side::Sell => 1,
        }
    }

    /// The variant with the given wire code, if there is one.
    pub fn from_code(c: u32) -> (r: Option<Side>)
        ensures
            r == Side::from_code_spec(c),
            r matches Some(v) ==> v.code_spec() == c,
    {
        if c == 0 {
            Some(Side::Buy)
        } else if c == 1 {
            Some(Side::Sell)
        } else {
            None
        }
    }
}

impl OrderType {
    /// The code of the variant on the wire: its position in the declaration.
    pub open spec fn code_spec(self) -> u32 {
        match self {
            OrderType::Market => 0,
            OrderType::Limit => 1,
            OrderType::PostOnly => 2,
        }
    }

    /// The variant with the given wire code, if there is one.
    pub open spec fn from_code_spec(c: u32) -> Option<OrderType> {
        if c == 0 {
            Some(OrderType::Market)
        } else if c == 1 {
            Some(OrderType::Limit)
        } else if c == 2 {
            Some(OrderType::PostOnly)
        } else {
            None
        }
    }

    /// The code of the variant on the wire: its position in the declaration.
    pub fn code(self) -> (r: u32)
        ensures
            r == self.code_spec(),
            OrderType::from_code_spec(r) == Some(self),
    {
        match self {
            OrderType::Market => 0,
            OrderType::Limit => 1,
            OrderType::PostOnly => 2,
        }
    }

    /// The variant with the given wire code, if there is one.
    pub fn from_code(c: u32) -> (r: Option<OrderType>)
        ensures
            r == OrderType::from_code_spec(c),
            r matches Some(v) ==> v.code_spec() == c,
    {
        if c == 0 {
            Some(OrderType::Market)
        } else if c == 1 {
            Some(OrderType::Limit)
        } else if c == 2 {
            Some(OrderType::PostOnly)
        } else {
            None
        }
    }
}

impl TriggerType {
    /// The code of the variant on the wire: its position in the declaration.
    pub open spec fn code_spec(self) -> u32 {
        match self {
            TriggerType::MTTrigger => 0,
            TriggerType::MTCloseTrigger => 1,
            TriggerType::HedgeTrigger => 2,
        }
    }

    /// The variant with the given wire code, if there is one.
    pub open spec fn from_code_spec(c: u32) -> Option<TriggerType> {
        if c == 0 {
            Some(TriggerType::MTTrigger)
        } else if c == 1 {
            Some(TriggerType::MTCloseTrigger)
        } else if c == 2 {
            Some(TriggerType::HedgeTrigger)
        } else {
            None
        }
    }

    /// The code of the variant on the wire: its position in the declaration.
    pub fn code(self) -> (r: u32)
        ensures
            r == self.code_spec(),
            TriggerType::from_code_spec(r) == Some(self),
    {
        match self {
            TriggerType::MTTrigger => 0,
            TriggerType::MTCloseTrigger => 1,
            TriggerType::HedgeTrigger => 2,
        }
    }

    /// The variant with the given wire code, if there is one.
    pub fn from_code(c: u32) -> (r: Option<TriggerType>)
        ensures
            r == TriggerType::from_code_spec(c),
            r matches Some(v) ==> v.code_spec() == c,
    {
        if c == 0 {
            Some(TriggerType::MTTrigger)
        } else if c == 1 {
            Some(TriggerType::MTCloseTrigger)
        } else if c == 2 {
            Some(TriggerType::HedgeTrigger)
        } else {
            None
        }
    }
}

impl FundingDirection {
    /// The code of the variant on the wire: its position in the declaration.
    pub open spec fn code_spec(self) -> u32 {
        match self {
            FundingDirection::Positive => 0,
            FundingDirection::Negative => 1,
            FundingDirection::Neutral => 2,
        }
    }

    /// The variant with the given wire code, if there is one.
    pub open spec fn from_code_spec(c: u32) -> Option<FundingDirection> {
        if c == 0 {
            Some(FundingDirection::Positive)
        } else if c == 1 {
            Some(FundingDirection::Negative)
        } else if c == 2 {
            Some(FundingDirection::Neutral)
        } else {
            None
        }
    }

    /// The code of the variant on the wire: its position in the declaration.
    pub fn code(self) -> (r: u32)
        ensures
            r == self.code_spec(),
            FundingDirection::from_code_spec(r) == Some(self),
    {
        match self {
            FundingDirection::Positive => 0,
            FundingDirection::Negative => 1,
            FundingDirection::Neutral => 2,
        }
    }

    /// The variant with the given wire code, if there is one.
    pub fn from_code(c: u32) -> (r: Option<FundingDirection>)
        ensures
            r == FundingDirection::from_code_spec(c),
            r matches Some(v) ==> v.code_spec() == c,
    {
        if c == 0 {
            Some(FundingDirection::Positive)
        } else if c == 1 {
            Some(FundingDirection::Negative)
        } else if c == 2 {
            Some(FundingDirection::Neutral)
        } else {
            None
        }
    }
}

impl RiskLevel {
    /// The code of the variant on the wire: its position in the declaration.
    pub open spec fn code_spec(self) -> u32 {
        match self {
            RiskLevel::Low => 0,
            RiskLevel::Medium => 1,
            RiskLevel::High => 2,
            RiskLevel::Critical => 3,
        }
    }

    /// The variant with the given wire code, if there is one.
    pub open spec fn from_code_spec(c: u32) -> Option<RiskLevel> {
        if c == 0 {
            Some(RiskLevel::Low)
        } else if c == 1 {
            Some(RiskLevel::Medium)
        } else if c == 2 {
            Some(RiskLevel::High)
        } else if c == 3 {
            Some(RiskLevel::Critical)
        } else {
            None
        }
    }

    /// The code of the variant on the wire: its position in the declaration.
    pub fn code(self) -> (r: u32)
        ensures
            r == self.code_spec(),
            RiskLevel::from_code_spec(r) == Some(self),
    {
        match self {
            RiskLevel::Low => 0,
            RiskLevel::Medium => 1,
            RiskLevel::High => 2,
            RiskLevel::Critical => 3,
        }
    }

    /// The variant with the given wire code, if there is one.
    pub fn from_code(c: u32) -> (r: Option<RiskLevel>)
        ensures
            r == RiskLevel::from_code_spec(c),
            r matches Some(v) ==> v.code_spec() == c,
    {
        if c == 0 {
            Some(RiskLevel::Low)
        } else if c == 1 {
            Some(RiskLevel::Medium)
        } else if c == 2 {
            Some(RiskLevel::High)
        } else if c == 3 {
            Some(RiskLevel::Critical)
        } else {
            None
        }
    }
}

impl OrderResponseStatus {
    /// The code of the variant on the wire: its position in the declaration.
    pub open spec fn code_spec(self) -> u32 {
        match self {
            OrderResponseStatus::Filled => 0,
            OrderResponseStatus::PartiallyFilled => 1,
            OrderResponseStatus::Rejected => 2,
            OrderResponseStatus::Cancelled => 3,
        }
    }

    /// The variant with the given wire code, if there is one.
    pub open spec fn from_code_spec(c: u32) -> Option<OrderResponseStatus> {
        if c == 0 {
            Some(OrderResponseStatus::Filled)
        } else if c == 1 {
            Some(OrderResponseStatus::PartiallyFilled)
        } else if c == 2 {
            Some(OrderResponseStatus::Rejected)
        } else if c == 3 {
            Some(OrderResponseStatus::Cancelled)
        } else {
            None
        }
    }

    /// The code of the variant on the wire: its position in the declaration.
    pub fn code(self) -> (r: u32)
        ensures
            r == self.code_spec(),
            OrderResponseStatus::from_code_spec(r) == Some(self),
    {
        match self {
            OrderResponseStatus::Filled => 0,
            OrderResponseStatus::PartiallyFilled => 1,
            OrderResponseStatus::Rejected => 2,
            OrderResponseStatus::Cancelled => 3,
        }
    }

    /// The variant with the given wire code, if there is one.
    pub fn from_code(c: u32) -> (r: Option<OrderResponseStatus>)
        ensures
            r == OrderResponseStatus::from_code_spec(c),
            r matches Some(v) ==> v.code_spec() == c,
    {
        if c == 0 {
            Some(OrderResponseStatus::Filled)
        } else if c == 1 {
            Some(OrderResponseStatus::PartiallyFilled)
        } else if c == 2 {
            Some(OrderResponseStatus::Rejected)
        } else if c == 3 {
            Some(OrderResponseStatus::Cancelled)
        } else {
            None
        }
    }
}

/// A signal as the processor sees it: where it came from, what it asks
/// for, and the payload of its kind.
#[derive(Debug)]
pub struct Signal {
    pub id: String,
    pub signal_type: SignalType,
    pub symbol: String,
    pub exchange: String,
    pub side: Option<Side>,
    pub price: Option<Decimal>,
    pub quantity: Option<Decimal>,
    pub source: String,
    pub priority: u8,
    pub metadata: Vec<(String, String)>,
    /// Milliseconds since the Unix epoch.
    pub timestamp: i64,
    pub data: SignalData,
}

impl Signal {
    /// The fields that no wire message carries hold what [`Signal::new`]
    /// gives them.
    pub open spec fn has_default_routing(self) -> bool {
        &&& self.side is None
        &&& self.price is None
        &&& self.quantity is None
        &&& self.source@ == "unknown"@
        &&& self.priority == 1
        &&& self.metadata@.len() == 0
    }

    /// A signal of the given kind with empty routing fields: no symbol, no
    /// exchange, no side, price or quantity, source `"unknown"`, priority 1.
    pub fn new(id: String, signal_type: SignalType, data: SignalData, timestamp: i64) -> (r: Signal)
        ensures
            r.id == id,
            r.signal_type == signal_type,
            r.data == data,
            r.timestamp == timestamp,
            r.symbol@.len() == 0,
            r.exchange@.len() == 0,
            r.has_default_routing(),
    {
        Signal {
            id,
            signal_type,
            symbol: String::new(),
            exchange: String::new(),
            side: None,
            price: None,
            quantity: None,
            source: "unknown".to_string(),
            priority: 1,
            metadata: Vec::new(),
            timestamp,
            data,
        }
    }

    /// The price times the quantity, where both are given and the product
    /// exists.
    pub open spec fn notional_spec(self) -> Option<Decimal> {
        match (self.price, self.quantity) {
            (Some(p), Some(q)) => crate::common::decimal::decimal_product(p, q),
            _ => None,
        }
    }

    /// The numeric fields are within the limits of their representation.
    pub open spec fn wf(self) -> bool {
        &&& (self.price matches Some(p) ==> p.wf())
        &&& (self.quantity matches Some(q) ==> q.wf())
    }

    /// The price times the quantity, where both are given and the product
    /// exists.
    pub fn notional(&self) -> (r: Option<Decimal>)
        requires
            self.wf(),
        ensures
            r == self.notional_spec(),
            r matches Some(d) ==> d.wf(),
    {
        match (self.price, self.quantity) {
            (Some(p), Some(q)) => crate::common::decimal::checked_mul(p, q),
            _ => None,
        }
    }
}

/// What the exchange reported about one order.
#[derive(Debug)]
pub struct ExecutionReport {
    pub order_id: String,
    pub client_order_id: String,
    pub symbol: Symbol,
    pub exchange: Exchange,
    pub side: Side,
    pub order_type: OrderType,
    pub price: Decimal,
    pub quantity: Decimal,
    pub filled_quantity: Decimal,
    pub status: OrderStatus,
    pub execution_type: ExecutionType,
    /// Milliseconds since the Unix epoch.
    pub timestamp: i64,
}

impl ExecutionReport {
    /// The numeric fields are within the limits of their representation.
    pub open spec fn wf(self) -> bool {
        &&& self.price.wf()
        &&& self.quantity.wf()
        &&& self.filled_quantity.wf()
    }
}

} // verus!
