//! The signal table: for each kind of signal the latest one that came in,
//! and the triggers that want to hear of it.

use vstd::prelude::*;
use crate::common::signals::SignalStatus;
use crate::common::types::{Signal, SignalType};

verus! {

/// The number of slots of the table: one for each kind of signal that the
/// collector takes, which are the first eight.
pub const SLOTS: usize = 8;

pub struct SignalManager {
    pub signals: Vec<SignalStatus>,
}

/// The kind with the given index, for an index below the number of slots.
pub open spec fn kind_at(index: int) -> SignalType {
    if index == 0 {
        SignalType::AdaptiveSpreadDeviation
    } else if index == 1 {
        SignalType::FixedSpreadDeviation
    } else if index == 2 {
        SignalType::FundingRateDirection
    } else if index == 3 {
        SignalType::RealTimeFundingRisk
    } else if index == 4 {
        SignalType::OrderResponse
    } else if index == 5 {
        SignalType::Arbitrage
    } else if index == 6 {
        SignalType::Market
    } else {
        SignalType::Hedge
    }
}

/// The indices without `x`, in the same order.
pub open spec fn index_removed(indices: Seq<usize>, x: usize, upto: int) -> Seq<usize>
    decreases upto,
{
    if upto <= 0 {
        Seq::empty()
    } else if indices[upto - 1] == x {
        index_removed(indices, x, upto - 1)
    } else {
        index_removed(indices, x, upto - 1).push(indices[upto - 1])
    }
}

/// The latest signals of the first `upto` slots, in the order of the
/// slots; a slot without a signal is passed over.
pub open spec fn latest_upto(slots: Seq<SignalStatus>, upto: int) -> Seq<Signal>
    decreases upto,
{
    if upto <= 0 {
        Seq::empty()
    } else {
        match slots[upto - 1].last_signal {
            Some(s) => latest_upto(slots, upto - 1).push(s),
            None => latest_upto(slots, upto - 1),
        }
    }
}

/// The signals behind a list of references.
pub open spec fn pointees(refs: Seq<&Signal>) -> Seq<Signal> {
    Seq::new(refs.len(), |i: int| *refs[i])
}

impl SignalManager {
    /// The table has its slots, each for the kind of its index, and no
    /// slot names a trigger twice.
    pub open spec fn wf(self) -> bool {
        &&& self.signals@.len() == SLOTS
        &&& forall|i: int|
            0 <= i < SLOTS ==> (#[trigger] self.signals@[i]).signal_type == kind_at(i)
                && self.signals@[i].trigger_indices@.no_duplicates()
    }

    /// The latest signal of a kind, if one came in and the table has a
    /// slot for the kind.
    pub open spec fn latest(self, kind: SignalType) -> Option<Signal> {
        if kind.index_spec() < SLOTS {
            self.signals@[kind.index_spec() as int].last_signal
        } else {
            None
        }
    }

    /// The triggers that subscribe to a kind, in the order in which they
    /// were registered.
    pub open spec fn triggers_of(self, kind: SignalType) -> Seq<usize> {
        if kind.index_spec() < SLOTS {
            self.signals@[kind.index_spec() as int].trigger_indices@
        } else {
            Seq::empty()
        }
    }

    /// A table without signals and without triggers.
    pub fn new(now: i64) -> (r: SignalManager)
        ensures
            r.wf(),
            forall|i: int|
                0 <= i < SLOTS ==> (#[trigger] r.signals@[i]).last_signal is None
                    && r.signals@[i].trigger_indices@.len() == 0 && r.signals@[i].last_updated == now,
    {
        let mut signals: Vec<SignalStatus> = Vec::new();
        let kinds = [
            SignalType::AdaptiveSpreadDeviation,
            SignalType::FixedSpreadDeviation,
            SignalType::FundingRateDirection,
            SignalType::RealTimeFundingRisk,
            SignalType::OrderResponse,
            SignalType::Arbitrage,
            SignalType::Market,
            SignalType::Hedge,
        ];
        let mut i: usize = 0;
        while i < SLOTS
            invariant
                i <= SLOTS,
                signals@.len() == i,
                kinds@.len() == SLOTS,
                forall|j: int| 0 <= j < SLOTS ==> #[trigger] kinds@[j] == kind_at(j),
                forall|j: int|
                    0 <= j < i ==> (#[trigger] signals@[j]).signal_type == kind_at(j)
                        && signals@[j].last_signal is None && signals@[j].trigger_indices@.len() == 0
                        && signals@[j].last_updated == now,
            decreases SLOTS - i,
        {
            signals.push(
                SignalStatus {
                    signal_type: kinds[i],
                    last_signal: None,
                    trigger_indices: Vec::new(),
                    last_updated: now,
                },
            );
            i += 1;
        }
        SignalManager { signals }
    }

    /// Puts a signal into the slot of its kind, in place of the one that
    /// was there, and stamps the slot. A signal of a kind without a slot
    /// is dropped.
    pub fn update_signal(&mut self, signal: Signal, now: i64)
        requires
            old(self).wf(),
        ensures
            final(self).wf(),
            final(self).signals@.len() == old(self).signals@.len(),
            forall|i: int|
                0 <= i < SLOTS ==> #[trigger] final(self).signals@[i] == if i
                    == signal.signal_type.index_spec() {
                    SignalStatus {
                        last_signal: Some(signal),
                        last_updated: now,
                        ..old(self).signals@[i]
                    }
                } else {
                    old(self).signals@[i]
                },
    {
        let idx = signal.signal_type.index();
        if idx < SLOTS {
            self.signals[idx].last_signal = Some(signal);
            self.signals[idx].last_updated = now;
        }
    }

    /// The slot with the given index.
    pub fn get_status(&self, signal_idx: usize) -> (r: Option<&SignalStatus>)
        requires
            self.wf(),
        ensures
            match r {
                Some(s) => signal_idx < SLOTS && *s == self.signals@[signal_idx as int],
                None => signal_idx >= SLOTS,
            },
    {
        if signal_idx < self.signals.len() {
            Some(&self.signals[signal_idx])
        } else {
            None
        }
    }

    /// The slot of a kind.
    pub fn get_status_by_type(&self, signal_type: SignalType) -> (r: Option<&SignalStatus>)
        requires
            self.wf(),
        ensures
            match r {
                Some(s) => signal_type.index_spec() < SLOTS && *s == self.signals@[
                signal_type.index_spec() as int],
                None => signal_type.index_spec() >= SLOTS,
            },
    {
        self.get_status(signal_type.index())
    }

    /// The latest signal of the slot with the given index.
    pub fn get_last_signal(&self, signal_idx: usize) -> (r: Option<&Signal>)
        requires
            self.wf(),
        ensures
            match r {
                Some(s) => signal_idx < SLOTS && self.signals@[signal_idx as int].last_signal == Some(
                    *s,
                ),
                None => signal_idx >= SLOTS || self.signals@[signal_idx as int].last_signal is None,
            },
    {
        if signal_idx < self.signals.len() {
            self.signals[signal_idx].last_signal.as_ref()
        } else {
            None
        }
    }

    /// The latest signal of a kind.
    pub fn get_last_signal_by_type(&self, signal_type: SignalType) -> (r: Option<&Signal>)
        requires
            self.wf(),
        ensures
            match r {
                Some(s) => self.latest(signal_type) == Some(*s),
                None => self.latest(signal_type) is None,
            },
    {
        self.get_last_signal(signal_type.index())
    }

    /// Subscribes a trigger to the slot with the given index, unless it
    /// subscribes already or there is no such slot.
    pub fn register_trigger(&mut self, signal_idx: usize, trigger_idx: usize)
        requires
            old(self).wf(),
        ensures
            final(self).wf(),
            final(self).signals@.len() == old(self).signals@.len(),
            forall|i: int|
                0 <= i < SLOTS ==> #[trigger] final(self).signals@[i] == if i == signal_idx && !old(self).signals@[i].trigger_indices@.contains(trigger_idx) {
                    SignalStatus {
                        trigger_indices: final(self).signals@[i].trigger_indices,
                        ..old(self).signals@[i]
                    }
                } else {
                    old(self).signals@[i]
                },
            signal_idx < SLOTS && !old(self).signals@[signal_idx as int].trigger_indices@.contains(
                trigger_idx,
            ) ==> final(self).signals@[signal_idx as int].trigger_indices@ == old(self).signals@[
            signal_idx as int].trigger_indices@.push(trigger_idx),
    {
        if signal_idx < self.signals.len() {
            if !contains_index(&self.signals[signal_idx].trigger_indices, trigger_idx) {
                self.signals[signal_idx].trigger_indices.push(trigger_idx);
                proof {
                    let before = old(self).signals@[signal_idx as int].trigger_indices@;
                    let after = self.signals@[signal_idx as int].trigger_indices@;
                    assert(before.no_duplicates());
                    assert forall|a: int, b: int|
                        0 <= a < after.len() && 0 <= b < after.len() && a != b implies after[a]
                        != after[b] by {
                        if a < before.len() && b < before.len() {
                            assert(before[a] != before[b]);
                        } else if a < before.len() {
                            assert(before.contains(before[a]));
                        } else {
                            assert(before.contains(before[b]));
                        }
                    }
                }
            }
        }
    }

    /// Ends the subscription of a trigger to the slot with the given
    /// index.
    pub fn unregister_trigger(&mut self, signal_idx: usize, trigger_idx: usize)
        requires
            old(self).wf(),
        ensures
            final(self).wf(),
            final(self).signals@.len() == old(self).signals@.len(),
            forall|i: int|
                0 <= i < SLOTS ==> #[trigger] final(self).signals@[i] == if i == signal_idx {
                    SignalStatus {
                        trigger_indices: final(self).signals@[i].trigger_indices,
                        ..old(self).signals@[i]
                    }
                } else {
                    old(self).signals@[i]
                },
            signal_idx < SLOTS ==> final(self).signals@[signal_idx as int].trigger_indices@
                == index_removed(
                old(self).signals@[signal_idx as int].trigger_indices@,
                trigger_idx,
                old(self).signals@[signal_idx as int].trigger_indices@.len() as int,
            ),
    {
        if signal_idx < self.signals.len() {
            let kept = remove_index(&self.signals[signal_idx].trigger_indices, trigger_idx);
            proof {
                assert(old(self).signals@[signal_idx as int].trigger_indices@.no_duplicates());
            }
            self.signals[signal_idx].trigger_indices = kept;
        }
    }

    /// The latest signals of all kinds, in the order of the slots.
    pub fn get_all_signals(&self) -> (r: Vec<&Signal>)
        requires
            self.wf(),
        ensures
            pointees(r@) == latest_upto(self.signals@, SLOTS as int),
    {
        let mut out: Vec<&Signal> = Vec::new();
        let mut i: usize = 0;
        proof {
            assert(pointees(out@) =~= latest_upto(self.signals@, 0));
        }
        while i < self.signals.len()
            invariant
                i <= self.signals@.len(),
                self.signals@.len() == SLOTS,
                pointees(out@) == latest_upto(self.signals@, i as int),
            decreases self.signals@.len() - i,
        {
            let ghost before = out@;
            match &self.signals[i].last_signal {
                Some(s) => {
                    out.push(s);
                    proof {
                        assert(pointees(out@) =~= pointees(before).push(*s));
                    }
                },
                None => {},
            }
            i += 1;
        }
        out
    }

    /// The triggers that subscribe to a kind, in the order in which they
    /// were registered.
    pub fn get_trigger_indices_for_signal(&self, signal_type: SignalType) -> (r: Vec<usize>)
        requires
            self.wf(),
        ensures
            r@ == self.triggers_of(signal_type),
    {
        let idx = signal_type.index();
        if idx < self.signals.len() {
            self.signals[idx].trigger_indices.clone()
        } else {
            Vec::new()
        }
    }
}

/// Whether `x` is among the indices.
pub fn contains_index(indices: &Vec<usize>, x: usize) -> (r: bool)
    ensures
        r == indices@.contains(x),
{
    let mut i: usize = 0;
    while i < indices.len()
        invariant
            i <= indices@.len(),
            forall|j: int| 0 <= j < i ==> indices@[j] != x,
        decreases indices@.len() - i,
    {
        if indices[i] == x {
            return true;
        }
        i += 1;
    }
    false
}

/// The indices without `x`, in the same order.
pub fn remove_index(indices: &Vec<usize>, x: usize) -> (r: Vec<usize>)
    ensures
        r@ == index_removed(indices@, x, indices@.len() as int),
        indices@.no_duplicates() ==> r@.no_duplicates(),
{
    let mut out: Vec<usize> = Vec::new();
    let ghost mut origin: Seq<int> = Seq::empty();
    let mut i: usize = 0;
    while i < indices.len()
        invariant
            i <= indices@.len(),
            out@ == index_removed(indices@, x, i as int),
            origin.len() == out@.len(),
            forall|k: int| 0 <= k < origin.len() ==> 0 <= #[trigger] origin[k] < i && indices@[origin[k]] == out@[k],
            forall|a: int, b: int| 0 <= a < b < origin.len() ==> #[trigger] origin[a] < #[trigger] origin[b],
        decreases indices@.len() - i,
    {
        if indices[i] != x {
            out.push(indices[i]);
            proof {
                origin = origin.push(i as int);
            }
        }
        i += 1;
    }
    proof {
        if indices@.no_duplicates() {
            assert forall|a: int, b: int| 0 <= a < out@.len() && 0 <= b < out@.len() && a != b implies out@[a]
                != out@[b] by {
                if a < b {
                    assert(origin[a] < origin[b]);
                } else {
                    assert(origin[b] < origin[a]);
                }
                assert(indices@[origin[a]] != indices@[origin[b]]);
            }
        }
    }
    out
}

} // verus!
