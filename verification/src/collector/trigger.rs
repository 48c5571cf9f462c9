//! The triggers: each reads the signal table and the signal that just
//! came in, and may ask for a trade.

use vstd::prelude::*;
use vstd::string::*;
use crate::collector::signal_manager::SignalManager;
use crate::common::events::{EventView, OpenPositionEvent, TradingEvent};
use crate::common::table::Table;
use crate::common::types::{
    Exchange, FundingDirection, OrderType, Priority, Real, Side, Signal, SignalData, SignalType,
    Symbol, TriggerType,
};

verus! {

/// The spread percentile above which the maker-taker trigger opens: 0.8.
pub const SPREAD_PERCENTILE_FLOOR: u64 = 0x3FE9_9999_9999_999A;

/// The quantity that the maker-taker trigger opens with: 100.
pub const OPEN_QUANTITY: u64 = 0x4059_0000_0000_0000;

/// The spread threshold of the maker-taker trigger: 0.001.
pub const SPREAD_THRESHOLD: u64 = 0x3F50_624D_D2F1_A9FC;

/// The funding threshold of the maker-taker trigger: 0.0001.
pub const FUNDING_THRESHOLD: u64 = 0x3F1A_36E2_EB1C_432D;

/// What every trigger offers.
pub trait Trigger {
    /// The trade that the trigger asks for, given the table and the
    /// signal that came in at `now`.
    spec fn decision(&self, manager: SignalManager, signal: Signal, now: i64) -> Option<EventView>;

    /// How urgent the trades of the trigger are.
    spec fn urgency(&self) -> Priority;

    /// The name of the trigger.
    spec fn name_spec(&self) -> Seq<char>;

    /// The name of the trigger.
    fn name(&self) -> (r: &'static str)
        ensures
            r@ == self.name_spec(),
    ;

    /// How urgent the trades of the trigger are.
    fn priority(&self) -> (r: Priority)
        ensures
            r == self.urgency(),
    ;

    /// The trade that the trigger asks for, if any. The table is only
    /// read.
    fn evaluate(&self, manager: &SignalManager, signal: &Signal, now: i64) -> (r: Option<TradingEvent>)
        requires
            manager.wf(),
        ensures
            match r {
                Some(e) => self.decision(*manager, *signal, now) == Some(e@),
                None => self.decision(*manager, *signal, now) is None,
            },
    ;
}

/// Opens a position when the funding rate points one way while the spread
/// is wide.
pub struct MTTrigger {
    pub spread_threshold: Real,
    pub funding_threshold: Real,
}

/// Closes the positions of the maker-taker strategy.
pub struct MTCloseTrigger {}

/// Hedges positions.
pub struct HedgeTrigger {}

/// The side that the maker-taker trigger takes on a funding direction: it
/// sells into positive funding and buys into negative funding.
pub open spec fn side_against(direction: FundingDirection) -> Option<Side> {
    match direction {
        FundingDirection::Positive => Some(Side::Sell),
        FundingDirection::Negative => Some(Side::Buy),
        FundingDirection::Neutral => None,
    }
}

impl MTTrigger {
    /// The trigger with a spread threshold of 0.001 and a funding
    /// threshold of 0.0001.
    pub fn new() -> (r: MTTrigger)
        ensures
            r.spread_threshold == (Real { bits: SPREAD_THRESHOLD }),
            r.funding_threshold == (Real { bits: FUNDING_THRESHOLD }),
    {
        MTTrigger {
            spread_threshold: Real { bits: SPREAD_THRESHOLD },
            funding_threshold: Real { bits: FUNDING_THRESHOLD },
        }
    }
}

impl MTCloseTrigger {
    pub fn new() -> (r: MTCloseTrigger)
        ensures
            r == (MTCloseTrigger {  }),
    {
        MTCloseTrigger {  }
    }
}

impl HedgeTrigger {
    pub fn new() -> (r: HedgeTrigger)
        ensures
            r == (HedgeTrigger {  }),
    {
        HedgeTrigger {  }
    }
}

impl Trigger for MTTrigger {
    /// On a funding rate whose size is above the funding threshold, with
    /// a latest adaptive spread whose percentile is above 0.8: a market
    /// order on Binance for 100 of the symbol of the funding rate, against
    /// the direction of the funding.
    open spec fn decision(&self, manager: SignalManager, signal: Signal, now: i64) -> Option<EventView> {
        match signal.data {
            SignalData::FundingRateDirection { symbol_id, funding_rate, direction, .. } => match manager.latest(
                SignalType::AdaptiveSpreadDeviation,
            ) {
                Some(spread) => match spread.data {
                    SignalData::AdaptiveSpreadDeviation { spread_percentile, .. } => if spread_percentile.gt_spec(
                        Real { bits: SPREAD_PERCENTILE_FLOOR },
                    ) && funding_rate.abs_spec().gt_spec(self.funding_threshold) {
                        match side_against(direction) {
                            Some(side) => Some(
                                EventView::OpenPosition {
                                    symbol: Symbol(symbol_id),
                                    exchange: Exchange::Binance,
                                    side,
                                    quantity: Real { bits: OPEN_QUANTITY },
                                    order_type: OrderType::Market,
                                    price: None,
                                    trigger_type: TriggerType::MTTrigger,
                                    reason: "MT open signal triggered"@,
                                    timestamp: now,
                                },
                            ),
                            None => None,
                        }
                    } else {
                        None
                    },
                    _ => None,
                },
                None => None,
            },
            _ => None,
        }
    }

    open spec fn urgency(&self) -> Priority {
        Priority::Medium
    }

    open spec fn name_spec(&self) -> Seq<char> {
        "MTTrigger"@
    }

    fn name(&self) -> (r: &'static str) {
        "MTTrigger"
    }

    fn priority(&self) -> (r: Priority) {
        Priority::Medium
    }

    fn evaluate(&self, manager: &SignalManager, signal: &Signal, now: i64) -> (r: Option<TradingEvent>) {
        let (symbol_id, funding_rate, direction) = match &signal.data {
            SignalData::FundingRateDirection { symbol_id, funding_rate, direction, .. } => (
                *symbol_id,
                *funding_rate,
                *direction,
            ),
            _ => {
                return None;
            },
        };
        let spread = match manager.get_last_signal_by_type(SignalType::AdaptiveSpreadDeviation) {
            Some(s) => s,
            None => {
                return None;
            },
        };
        let spread_percentile = match &spread.data {
            SignalData::AdaptiveSpreadDeviation { spread_percentile, .. } => *spread_percentile,
            _ => {
                return None;
            },
        };
        if !(spread_percentile.greater_than(Real { bits: SPREAD_PERCENTILE_FLOOR })
            && funding_rate.abs().greater_than(self.funding_threshold)) {
            return None;
        }
        let side = match direction {
            FundingDirection::Positive => Side::Sell,
            FundingDirection::Negative => Side::Buy,
            FundingDirection::Neutral => {
                return None;
            },
        };
        Some(
            TradingEvent::OpenPosition(
                OpenPositionEvent {
                    symbol: Symbol(symbol_id),
                    exchange: Exchange::Binance,
                    side,
                    quantity: Real { bits: OPEN_QUANTITY },
                    order_type: OrderType::Market,
                    price: None,
                    trigger_type: TriggerType::MTTrigger,
                    reason: String::from_str("MT open signal triggered"),
                    timestamp: now,
                },
            ),
        )
    }
}

impl Trigger for MTCloseTrigger {
    /// The trigger asks for nothing yet.
    open spec fn decision(&self, manager: SignalManager, signal: Signal, now: i64) -> Option<EventView> {
        None
    }

    open spec fn urgency(&self) -> Priority {
        Priority::High
    }

    open spec fn name_spec(&self) -> Seq<char> {
        "MTCloseTrigger"@
    }

    fn name(&self) -> (r: &'static str) {
        "MTCloseTrigger"
    }

    fn priority(&self) -> (r: Priority) {
        Priority::High
    }

    fn evaluate(&self, manager: &SignalManager, signal: &Signal, now: i64) -> (r: Option<TradingEvent>) {
        None
    }
}

impl Trigger for HedgeTrigger {
    /// The trigger asks for nothing yet.
    open spec fn decision(&self, manager: SignalManager, signal: Signal, now: i64) -> Option<EventView> {
        None
    }

    open spec fn urgency(&self) -> Priority {
        Priority::High
    }

    open spec fn name_spec(&self) -> Seq<char> {
        "HedgeTrigger"@
    }

    fn name(&self) -> (r: &'static str) {
        "HedgeTrigger"
    }

    fn priority(&self) -> (r: Priority) {
        Priority::High
    }

    fn evaluate(&self, manager: &SignalManager, signal: &Signal, now: i64) -> (r: Option<TradingEvent>) {
        None
    }
}

/// A trigger of the registry.
pub enum AnyTrigger {
    MT(MTTrigger),
    MTClose(MTCloseTrigger),
    Hedge(HedgeTrigger),
}

impl Trigger for AnyTrigger {
    open spec fn decision(&self, manager: SignalManager, signal: Signal, now: i64) -> Option<EventView> {
        match self {
            AnyTrigger::MT(t) => t.decision(manager, signal, now),
            AnyTrigger::MTClose(t) => t.decision(manager, signal, now),
            AnyTrigger::Hedge(t) => t.decision(manager, signal, now),
        }
    }

    open spec fn urgency(&self) -> Priority {
        match self {
            AnyTrigger::MT(t) => t.urgency(),
            AnyTrigger::MTClose(t) => t.urgency(),
            AnyTrigger::Hedge(t) => t.urgency(),
        }
    }

    open spec fn name_spec(&self) -> Seq<char> {
        match self {
            AnyTrigger::MT(t) => t.name_spec(),
            AnyTrigger::MTClose(t) => t.name_spec(),
            AnyTrigger::Hedge(t) => t.name_spec(),
        }
    }

    fn name(&self) -> (r: &'static str) {
        match self {
            AnyTrigger::MT(t) => t.name(),
            AnyTrigger::MTClose(t) => t.name(),
            AnyTrigger::Hedge(t) => t.name(),
        }
    }

    fn priority(&self) -> (r: Priority) {
        match self {
            AnyTrigger::MT(t) => t.priority(),
            AnyTrigger::MTClose(t) => t.priority(),
            AnyTrigger::Hedge(t) => t.priority(),
        }
    }

    fn evaluate(&self, manager: &SignalManager, signal: &Signal, now: i64) -> (r: Option<TradingEvent>) {
        match self {
            AnyTrigger::MT(t) => t.evaluate(manager, signal, now),
            AnyTrigger::MTClose(t) => t.evaluate(manager, signal, now),
            AnyTrigger::Hedge(t) => t.evaluate(manager, signal, now),
        }
    }
}

/// The triggers, each under the index that it got when it was registered
/// and under its name.
pub struct TriggerRegistry {
    pub triggers: Vec<AnyTrigger>,
    pub name_to_idx: Table<usize>,
}

impl TriggerRegistry {
    /// Every name leads to a trigger.
    pub open spec fn wf(self) -> bool {
        &&& self.name_to_idx.wf()
        &&& forall|i: int|
            0 <= i < self.name_to_idx.values@.len() ==> (#[trigger] self.name_to_idx.values@[i])
                < self.triggers@.len()
    }

    /// A registry without triggers.
    pub fn new() -> (r: TriggerRegistry)
        ensures
            r.wf(),
            r.triggers@.len() == 0,
    {
        TriggerRegistry { triggers: Vec::new(), name_to_idx: Table::new() }
    }

    /// Takes a trigger into the registry and returns its index: the
    /// number of triggers that were registered before it. The name of the
    /// trigger leads to it from now on.
    pub fn register(&mut self, trigger: AnyTrigger) -> (r: usize)
        requires
            old(self).wf(),
        ensures
            final(self).wf(),
            r == old(self).triggers@.len(),
            final(self).triggers@ == old(self).triggers@.push(trigger),
            final(self).name_to_idx.get(trigger.name_spec()) == Some(r),
            forall|k: Seq<char>|
                k != trigger.name_spec() ==> #[trigger] final(self).name_to_idx.get(k) == old(self).name_to_idx.get(k),
    {
        let idx = self.triggers.len();
        let name = String::from_str(trigger.name());
        self.triggers.push(trigger);
        self.name_to_idx.upsert(name, idx);
        proof {
            assert forall|i: int| 0 <= i < self.name_to_idx.values@.len() implies (
            #[trigger] self.name_to_idx.values@[i]) < self.triggers@.len() by {
                self.name_to_idx.lemma_entry(i);
                let k = self.name_to_idx.keys@[i]@;
                if k != trigger.name_spec() {
                    old(self).name_to_idx.lemma_slot(k);
                    assert(old(self).name_to_idx.values@[old(self).name_to_idx.slot(k)]
                        < old(self).triggers@.len());
                }
            }
        }
        idx
    }

    /// The trigger with the given index.
    pub fn get_trigger(&self, idx: usize) -> (r: Option<&AnyTrigger>)
        ensures
            match r {
                Some(t) => idx < self.triggers@.len() && *t == self.triggers@[idx as int],
                None => idx >= self.triggers@.len(),
            },
    {
        if idx < self.triggers.len() {
            Some(&self.triggers[idx])
        } else {
            None
        }
    }

    /// The trigger with the given name, and its index.
    pub fn get_trigger_by_name(&self, name: &str) -> (r: Option<(usize, &AnyTrigger)>)
        requires
            self.wf(),
        ensures
            match r {
                Some((idx, t)) => self.name_to_idx.get(name@) == Some(idx) && idx < self.triggers@.len()
                    && *t == self.triggers@[idx as int],
                None => self.name_to_idx.get(name@) is None,
            },
    {
        match self.name_to_idx.find(name) {
            Some(i) => {
                let idx = self.name_to_idx.values[i];
                Some((idx, &self.triggers[idx]))
            },
            None => None,
        }
    }

    /// Registers the three triggers of the system, and says for each the
    /// slots of the signal table that it subscribes to: the maker-taker
    /// trigger to adaptive spread, fixed spread and funding rate; its
    /// closing trigger to funding risk, adaptive spread and fixed spread;
    /// the hedge trigger to adaptive spread and fixed spread.
    pub fn register_default_triggers(&mut self) -> (r: Vec<(usize, Vec<usize>)>)
        requires
            old(self).wf(),
        ensures
            final(self).wf(),
            final(self).triggers@.len() == old(self).triggers@.len() + 3,
            final(self).triggers@.subrange(0, old(self).triggers@.len() as int) == old(self).triggers@,
            final(self).triggers@[old(self).triggers@.len() as int] is MT,
            final(self).triggers@[old(self).triggers@.len() as int + 1] is MTClose,
            final(self).triggers@[old(self).triggers@.len() as int + 2] is Hedge,
            r@.len() == 3,
            r@[0].0 == old(self).triggers@.len() && r@[0].1@ == seq![0usize, 1, 2],
            r@[1].0 == old(self).triggers@.len() + 1 && r@[1].1@ == seq![3usize, 0, 1],
            r@[2].0 == old(self).triggers@.len() + 2 && r@[2].1@ == seq![0usize, 1],
    {
        let mt = self.register(AnyTrigger::MT(MTTrigger::new()));
        let mt_close = self.register(AnyTrigger::MTClose(MTCloseTrigger::new()));
        let hedge = self.register(AnyTrigger::Hedge(HedgeTrigger::new()));
        let mut out: Vec<(usize, Vec<usize>)> = Vec::new();
        let mut a: Vec<usize> = Vec::new();
        a.push(0);
        a.push(1);
        a.push(2);
        let mut b: Vec<usize> = Vec::new();
        b.push(3);
        b.push(0);
        b.push(1);
        let mut c: Vec<usize> = Vec::new();
        c.push(0);
        c.push(1);
        out.push((mt, a));
        out.push((mt_close, b));
        out.push((hedge, c));
        proof {
            assert(out@[0].1@ =~= seq![0usize, 1, 2]);
            assert(out@[1].1@ =~= seq![3usize, 0, 1]);
            assert(out@[2].1@ =~= seq![0usize, 1]);
            assert(self.triggers@.subrange(0, old(self).triggers@.len() as int) =~= old(self).triggers@);
        }
        out
    }
}

} // verus!
