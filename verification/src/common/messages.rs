//! The envelopes that travel on the bus.

use vstd::prelude::*;
use crate::common::events::{EventView, TradingEvent};
use crate::common::types::Signal;

verus! {

#[derive(Debug)]
pub enum IpcMessage {
    Signal(SignalMessage),
    Event(EventMessage),
    Control(ControlMessage),
}

#[derive(Debug)]
pub struct SignalMessage {
    pub signal: Signal,
    pub source: String,
    /// Milliseconds since the Unix epoch.
    pub timestamp: i64,
}

/// A trading event with its place in the publisher's sequence.
#[derive(Debug)]
pub struct EventMessage {
    pub event: TradingEvent,
    pub sequence_id: u64,
    /// Milliseconds since the Unix epoch.
    pub timestamp: i64,
}

/// An event message with each string as its sequence of characters.
pub struct EventMessageView {
    pub event: EventView,
    pub sequence_id: u64,
    pub timestamp: i64,
}

impl View for EventMessage {
    type V = EventMessageView;

    open spec fn view(&self) -> EventMessageView {
        EventMessageView { event: self.event@, sequence_id: self.sequence_id, timestamp: self.timestamp }
    }
}

#[derive(Debug)]
pub enum ControlMessage {
    Start,
    Stop,
    Pause,
    Resume,
    Shutdown,
    HealthCheck,
    ConfigUpdate(String),
}

} // verus!
