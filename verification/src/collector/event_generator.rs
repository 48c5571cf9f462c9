//! The numbering of the events that the collector publishes.

use vstd::prelude::*;
use crate::common::events::TradingEvent;
use crate::common::messages::EventMessage;

verus! {

/// Hands out the sequence ids of the event messages, one after the other
/// from zero.
pub struct EventGenerator {
    pub sequence_id: u64,
}

impl EventGenerator {
    pub fn new() -> (r: EventGenerator)
        ensures
            r.sequence_id == 0,
    {
        EventGenerator { sequence_id: 0 }
    }

    /// The message of an event, with the next sequence id. The ids grow
    /// by one from message to message, until the largest one is reached.
    pub fn next_message(&mut self, event: TradingEvent, now: i64) -> (r: EventMessage)
        ensures
            r == (EventMessage { event, sequence_id: old(self).sequence_id, timestamp: now }),
            final(self).sequence_id == if old(self).sequence_id < u64::MAX {
                (old(self).sequence_id + 1) as u64
            } else {
                u64::MAX
            },
            final(self).sequence_id >= old(self).sequence_id,
    {
        let message = EventMessage { event, sequence_id: self.sequence_id, timestamp: now };
        if self.sequence_id < u64::MAX {
            self.sequence_id = self.sequence_id + 1;
        }
        message
    }
}

} // verus!
