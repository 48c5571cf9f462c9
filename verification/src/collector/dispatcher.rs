//! The dispatch of an incoming signal: into the table it goes, and to
//! every trigger that subscribes to its kind, in the order of their
//! registration.

use vstd::prelude::*;
use crate::collector::signal_manager::{SignalManager, SLOTS};
use crate::collector::trigger::{AnyTrigger, Trigger, TriggerRegistry};
use crate::common::events::{EventView, TradingEvent};
use crate::common::types::Signal;

verus! {

/// The trades that the first `upto` of the subscribed triggers ask for,
/// in the order of the subscriptions. A subscription of a trigger that the
/// registry does not have asks for nothing.
pub open spec fn fired_upto(
    subscribed: Seq<usize>,
    triggers: Seq<AnyTrigger>,
    manager: SignalManager,
    signal: Signal,
    now: i64,
    upto: int,
) -> Seq<EventView>
    decreases upto,
{
    if upto <= 0 {
        Seq::empty()
    } else {
        let before = fired_upto(subscribed, triggers, manager, signal, now, upto - 1);
        let idx = subscribed[upto - 1];
        if idx < triggers.len() {
            match triggers[idx as int].decision(manager, signal, now) {
                Some(e) => before.push(e),
                None => before,
            }
        } else {
            before
        }
    }
}

/// The events as their views.
pub open spec fn views(events: Seq<TradingEvent>) -> Seq<EventView> {
    Seq::new(events.len(), |i: int| events[i]@)
}

/// What the triggers that subscribe to the kind of the signal ask for,
/// given the table as it is.
pub fn evaluate_triggers(manager: &SignalManager, registry: &TriggerRegistry, signal: &Signal, now: i64) -> (r:
    Vec<TradingEvent>)
    requires
        manager.wf(),
    ensures
        views(r@) == fired_upto(
            manager.triggers_of(signal.signal_type),
            registry.triggers@,
            *manager,
            *signal,
            now,
            manager.triggers_of(signal.signal_type).len() as int,
        ),
{
    let subscribed = manager.get_trigger_indices_for_signal(signal.signal_type);
    let mut out: Vec<TradingEvent> = Vec::new();
    let mut i: usize = 0;
    proof {
        assert(views(out@) =~= fired_upto(subscribed@, registry.triggers@, *manager, *signal, now, 0));
    }
    while i < subscribed.len()
        invariant
            i <= subscribed@.len(),
            manager.wf(),
            views(out@) == fired_upto(subscribed@, registry.triggers@, *manager, *signal, now, i as int),
        decreases subscribed@.len() - i,
    {
        let ghost before = out@;
        match registry.get_trigger(subscribed[i]) {
            Some(trigger) => match trigger.evaluate(manager, signal, now) {
                Some(event) => {
                    out.push(event);
                    proof {
                        assert(views(out@) =~= views(before).push(event@));
                    }
                },
                None => {},
            },
            None => {},
        }
        i += 1;
    }
    out
}

/// Takes in a signal: the table gets it as the latest of its kind, and
/// the triggers that subscribe to the kind are asked, in the order of
/// their registration, with the table as it then is. Returns the trades
/// that they ask for. A signal of a kind without a slot is dropped, and
/// nobody is asked.
pub fn dispatch(manager: &mut SignalManager, registry: &TriggerRegistry, signal: Signal, now: i64) -> (r:
    Vec<TradingEvent>)
    requires
        old(manager).wf(),
    ensures
        final(manager).wf(),
        final(manager).signals@.len() == old(manager).signals@.len(),
        forall|i: int|
            0 <= i < SLOTS ==> #[trigger] final(manager).signals@[i] == if i
                == signal.signal_type.index_spec() {
                crate::common::signals::SignalStatus {
                    last_signal: Some(signal),
                    last_updated: now,
                    ..old(manager).signals@[i]
                }
            } else {
                old(manager).signals@[i]
            },
        views(r@) == fired_upto(
            final(manager).triggers_of(signal.signal_type),
            registry.triggers@,
            *final(manager),
            signal,
            now,
            final(manager).triggers_of(signal.signal_type).len() as int,
        ),
{
    let kind = signal.signal_type;
    manager.update_signal(signal, now);
    match manager.get_last_signal_by_type(kind) {
        Some(stored) => evaluate_triggers(manager, registry, stored, now),
        None => {
            let out: Vec<TradingEvent> = Vec::new();
            proof {
                assert(views(out@) =~= Seq::<EventView>::empty());
            }
            out
        },
    }
}

} // verus!
