//! What a connection runner does upon each thing that happens to it.
//!
//! The runner itself connects, reads, writes and waits; after each of
//! these it asks [`step`] what to do next. Binance pings its clients and
//! expects the pong with the payload of the ping; a ping that is overdue
//! ends the connection. OKX and Bybit expect the client to send `ping`
//! and answer `pong`; a pong that is overdue at the next ping ends the
//! connection. A connection that has ended is made anew after five
//! seconds.

use vstd::prelude::*;
use crate::common::text::str_equal;
use crate::engine::ws_pool::connection::{ConnectionCommand, ConnectionState, ConnectionStats};

verus! {

/// The pause before a connection is made anew, in milliseconds.
pub const RECONNECT_DELAY_MS: u64 = 5_000;

/// The round-trip time that a pong of Binance is booked with, in
/// microseconds.
pub const ASSUMED_RTT_US: u64 = 20_000;

/// Who keeps the connection alive.
#[derive(Debug, Clone, Copy, PartialEq, Eq, Structural)]
pub enum KeepaliveStyle {
    /// The server pings, the client answers with the payload.
    ServerPings,
    /// The client sends `ping`, the server answers `pong`.
    ClientPings,
}

/// The keepalive of an exchange.
#[derive(Debug, Clone, Copy, PartialEq, Eq, Structural)]
pub struct KeepalivePolicy {
    pub style: KeepaliveStyle,
    /// The time between two pings, in milliseconds.
    pub interval_ms: i64,
    /// How much later than that a ping may come, in milliseconds.
    pub grace_ms: i64,
}

impl KeepalivePolicy {
    /// Binance: a ping every 180 s, with 5 s of grace.
    pub open spec fn binance_spec() -> KeepalivePolicy {
        KeepalivePolicy { style: KeepaliveStyle::ServerPings, interval_ms: 180_000, grace_ms: 5_000 }
    }

    /// OKX: a ping every 25 s.
    pub open spec fn okx_spec() -> KeepalivePolicy {
        KeepalivePolicy { style: KeepaliveStyle::ClientPings, interval_ms: 25_000, grace_ms: 0 }
    }

    /// Bybit: a ping every 20 s.
    pub open spec fn bybit_spec() -> KeepalivePolicy {
        KeepalivePolicy { style: KeepaliveStyle::ClientPings, interval_ms: 20_000, grace_ms: 0 }
    }

    pub fn binance() -> (r: KeepalivePolicy)
        ensures
            r == KeepalivePolicy::binance_spec(),
    {
        KeepalivePolicy { style: KeepaliveStyle::ServerPings, interval_ms: 180_000, grace_ms: 5_000 }
    }

    pub fn okx() -> (r: KeepalivePolicy)
        ensures
            r == KeepalivePolicy::okx_spec(),
    {
        KeepalivePolicy { style: KeepaliveStyle::ClientPings, interval_ms: 25_000, grace_ms: 0 }
    }

    pub fn bybit() -> (r: KeepalivePolicy)
        ensures
            r == KeepalivePolicy::bybit_spec(),
    {
        KeepalivePolicy { style: KeepaliveStyle::ClientPings, interval_ms: 20_000, grace_ms: 0 }
    }

    /// The time at which the timer fires if it is set at `now`; the
    /// largest time where that would lie beyond it.
    pub open spec fn deadline_from(self, now: i64) -> i64 {
        let at = now + self.interval_ms + self.grace_ms;
        if at > i64::MAX {
            i64::MAX
        } else if at < i64::MIN {
            i64::MIN
        } else {
            at as i64
        }
    }

    /// The time at which the timer fires if it is set at `now`.
    pub fn deadline(&self, now: i64) -> (r: i64)
        ensures
            r == self.deadline_from(now),
    {
        let at: i128 = now as i128 + self.interval_ms as i128 + self.grace_ms as i128;
        if at > i64::MAX as i128 {
            i64::MAX
        } else if at < i64::MIN as i128 {
            i64::MIN
        } else {
            at as i64
        }
    }
}

/// A frame from the exchange.
#[derive(Debug)]
pub enum Frame {
    Text(String),
    Binary(Vec<u8>),
    Ping(Vec<u8>),
    Pong(Vec<u8>),
    Close,
    Other,
}

/// What happened to the runner.
#[derive(Debug)]
pub enum RunnerEvent {
    /// The runner is to connect.
    Start,
    ConnectSucceeded,
    ConnectFailed,
    /// The subscription could not be sent.
    SubscribeFailed,
    /// The shutdown flag of the pool changed, to the given value.
    ShutdownChanged(bool),
    TimerFired,
    Command(ConnectionCommand),
    FrameReceived(Frame),
    ReadFailed,
    /// What the runner was told to send could not be sent.
    SendFailed,
    /// What the runner was told to hand on could not be handed on.
    ForwardFailed,
}

/// What the runner is to send.
#[derive(Debug, Clone, Copy, PartialEq, Eq, Structural)]
pub enum Outbound {
    Nothing,
    /// The subscription of the connection, as text.
    Subscription,
    /// The text `ping`.
    Ping,
    /// A pong with the payload of the ping that came in.
    PongEcho,
    /// The payload of the command, as a binary frame.
    Payload,
    /// A close frame; a failure to send it is of no account.
    Close,
}

/// How the runner is to go on.
#[derive(Debug, Clone, Copy, PartialEq, Eq, Structural)]
pub enum Next {
    /// Wait for the next thing to happen.
    Continue,
    /// Connect.
    Connect,
    /// Drop the connection, wait, and start anew.
    Reconnect { delay_ms: u64 },
    /// End.
    Stop,
}

/// What the runner is to do.
#[derive(Debug, Clone, Copy, PartialEq, Eq, Structural)]
pub struct Reaction {
    pub outbound: Outbound,
    /// Hand the bytes of the frame on to the pool.
    pub forward: bool,
    pub next: Next,
}

/// What the runner knows between two events.
#[derive(Debug, Clone, Copy, PartialEq, Eq, Structural)]
pub struct RunnerState {
    pub state: ConnectionState,
    /// When the timer fires.
    pub deadline: i64,
    /// A ping of the client is unanswered.
    pub waiting_pong: bool,
    pub stats: ConnectionStats,
}

/// Go on, with nothing to send.
pub open spec fn carry_on() -> Reaction {
    Reaction { outbound: Outbound::Nothing, forward: false, next: Next::Continue }
}

/// Drop the connection and start anew after the usual pause, with a close
/// frame where `close` is set.
pub open spec fn start_over(close: bool) -> Reaction {
    Reaction {
        outbound: if close {
            Outbound::Close
        } else {
            Outbound::Nothing
        },
        forward: false,
        next: Next::Reconnect { delay_ms: RECONNECT_DELAY_MS },
    }
}

/// The state of a runner whose connection has ended.
pub open spec fn ended(s: RunnerState, state: ConnectionState) -> RunnerState {
    RunnerState { state, waiting_pong: false, ..s }
}

/// Whether the frame is the text `pong`.
pub open spec fn is_pong_text(frame: Frame) -> bool {
    frame matches Frame::Text(t) && t@ == "pong"@
}

/// What a frame does to a connected runner.
pub open spec fn on_frame(policy: KeepalivePolicy, s: RunnerState, frame: Frame, now: i64) -> (
    RunnerState,
    Reaction,
) {
    let fresh = policy.deadline_from(now);
    match policy.style {
        KeepaliveStyle::ServerPings => match frame {
            Frame::Ping(_) => (
                RunnerState { deadline: fresh, ..s },
                Reaction { outbound: Outbound::PongEcho, forward: false, next: Next::Continue },
            ),
            Frame::Text(_) => (
                RunnerState { deadline: fresh, stats: s.stats.after_message(now, true), ..s },
                Reaction { outbound: Outbound::Nothing, forward: true, next: Next::Continue },
            ),
            Frame::Binary(_) => (
                RunnerState { deadline: fresh, stats: s.stats.after_message(now, false), ..s },
                Reaction { outbound: Outbound::Nothing, forward: true, next: Next::Continue },
            ),
            Frame::Close => (ended(s, ConnectionState::Disconnected), start_over(false)),
            Frame::Pong(_) => (
                RunnerState {
                    deadline: fresh,
                    stats: ConnectionStats { rtt_us: ASSUMED_RTT_US, ..s.stats },
                    ..s
                },
                carry_on(),
            ),
            Frame::Other => (RunnerState { deadline: fresh, ..s }, carry_on()),
        },
        KeepaliveStyle::ClientPings => if is_pong_text(frame) {
            if s.waiting_pong {
                (RunnerState { waiting_pong: false, deadline: fresh, ..s }, carry_on())
            } else {
                (RunnerState { deadline: fresh, ..s }, carry_on())
            }
        } else {
            let deadline = if s.waiting_pong {
                s.deadline
            } else {
                fresh
            };
            match frame {
                Frame::Text(_) => (
                    RunnerState { deadline, stats: s.stats.after_message(now, true), ..s },
                    Reaction { outbound: Outbound::Nothing, forward: true, next: Next::Continue },
                ),
                Frame::Binary(_) => (
                    RunnerState { deadline, stats: s.stats.after_message(now, false), ..s },
                    Reaction { outbound: Outbound::Nothing, forward: true, next: Next::Continue },
                ),
                Frame::Close => (ended(s, ConnectionState::Disconnected), start_over(false)),
                _ => (RunnerState { deadline, ..s }, carry_on()),
            }
        },
    }
}

/// What an event does to a runner: the state it is in afterwards, and
/// what it is to do.
pub open spec fn reaction(policy: KeepalivePolicy, s: RunnerState, event: RunnerEvent, now: i64) -> (
    RunnerState,
    Reaction,
) {
    match s.state {
        ConnectionState::Disconnected | ConnectionState::Error => match event {
            RunnerEvent::Start => (
                RunnerState { state: ConnectionState::Connecting, waiting_pong: false, ..s },
                Reaction { outbound: Outbound::Nothing, forward: false, next: Next::Connect },
            ),
            RunnerEvent::ShutdownChanged(true) => (
                s,
                Reaction { outbound: Outbound::Nothing, forward: false, next: Next::Stop },
            ),
            _ => (s, carry_on()),
        },
        ConnectionState::Connecting => match event {
            RunnerEvent::ConnectSucceeded => (
                RunnerState {
                    state: ConnectionState::Connected,
                    deadline: policy.deadline_from(now),
                    waiting_pong: false,
                    ..s
                },
                Reaction { outbound: Outbound::Subscription, forward: false, next: Next::Continue },
            ),
            RunnerEvent::ConnectFailed => (ended(s, ConnectionState::Error), start_over(false)),
            RunnerEvent::ShutdownChanged(true) => (
                ended(s, ConnectionState::Disconnected),
                Reaction { outbound: Outbound::Nothing, forward: false, next: Next::Stop },
            ),
            _ => (s, carry_on()),
        },
        ConnectionState::Connected => match event {
            RunnerEvent::ShutdownChanged(true) => (
                ended(s, ConnectionState::Disconnected),
                Reaction { outbound: Outbound::Close, forward: false, next: Next::Stop },
            ),
            RunnerEvent::TimerFired => match policy.style {
                KeepaliveStyle::ServerPings => (
                    ended(s, ConnectionState::Disconnected),
                    start_over(true),
                ),
                KeepaliveStyle::ClientPings => if s.waiting_pong {
                    (ended(s, ConnectionState::Disconnected), start_over(true))
                } else {
                    (
                        RunnerState { waiting_pong: true, deadline: policy.deadline_from(now), ..s },
                        Reaction { outbound: Outbound::Ping, forward: false, next: Next::Continue },
                    )
                },
            },
            RunnerEvent::Command(ConnectionCommand::SendMessage(_)) => (
                s,
                Reaction { outbound: Outbound::Payload, forward: false, next: Next::Continue },
            ),
            RunnerEvent::Command(ConnectionCommand::Disconnect) => (
                ended(s, ConnectionState::Disconnected),
                start_over(true),
            ),
            RunnerEvent::FrameReceived(frame) => on_frame(policy, s, frame, now),
            RunnerEvent::ReadFailed => (
                ended(
                    RunnerState { stats: s.stats.after_error(now), ..s },
                    ConnectionState::Disconnected,
                ),
                start_over(false),
            ),
            RunnerEvent::SendFailed | RunnerEvent::ForwardFailed | RunnerEvent::SubscribeFailed => (
                ended(s, ConnectionState::Disconnected),
                start_over(false),
            ),
            _ => (s, carry_on()),
        },
    }
}

impl RunnerState {
    /// The state of a runner that has not started.
    pub fn new() -> (r: RunnerState)
        ensures
            r == (RunnerState {
                state: ConnectionState::Disconnected,
                deadline: 0,
                waiting_pong: false,
                stats: ConnectionStats::fresh(),
            }),
    {
        RunnerState {
            state: ConnectionState::Disconnected,
            deadline: 0,
            waiting_pong: false,
            stats: ConnectionStats {
                total_messages: 0,
                total_errors: 0,
                last_message_time: None,
                last_error_time: None,
                rtt_us: 0,
                success_rate: 100_000,
            },
        }
    }
}

/// What a frame does to a connected runner.
fn step_frame(policy: &KeepalivePolicy, s: RunnerState, frame: &Frame, now: i64) -> (r: (
    RunnerState,
    Reaction,
))
    ensures
        r == on_frame(*policy, s, *frame, now),
{
    let fresh = policy.deadline(now);
    let go_on = Reaction { outbound: Outbound::Nothing, forward: false, next: Next::Continue };
    let hand_on = Reaction { outbound: Outbound::Nothing, forward: true, next: Next::Continue };
    let over = Reaction {
        outbound: Outbound::Nothing,
        forward: false,
        next: Next::Reconnect { delay_ms: RECONNECT_DELAY_MS },
    };
    let mut t = s;
    match policy.style {
        KeepaliveStyle::ServerPings => match frame {
            Frame::Ping(_) => {
                t.deadline = fresh;
                (t, Reaction { outbound: Outbound::PongEcho, forward: false, next: Next::Continue })
            },
            Frame::Text(_) => {
                t.deadline = fresh;
                t.stats.note_message(now, true);
                (t, hand_on)
            },
            Frame::Binary(_) => {
                t.deadline = fresh;
                t.stats.note_message(now, false);
                (t, hand_on)
            },
            Frame::Close => {
                t.state = ConnectionState::Disconnected;
                t.waiting_pong = false;
                (t, over)
            },
            Frame::Pong(_) => {
                t.deadline = fresh;
                t.stats.rtt_us = ASSUMED_RTT_US;
                (t, go_on)
            },
            Frame::Other => {
                t.deadline = fresh;
                (t, go_on)
            },
        },
        KeepaliveStyle::ClientPings => {
            let pong = match frame {
                Frame::Text(text) => str_equal(text.as_str(), "pong"),
                _ => false,
            };
            if pong {
                t.waiting_pong = false;
                t.deadline = fresh;
                return (t, go_on);
            }
            if !s.waiting_pong {
                t.deadline = fresh;
            }
            match frame {
                Frame::Text(_) => {
                    t.stats.note_message(now, true);
                    (t, hand_on)
                },
                Frame::Binary(_) => {
                    t.stats.note_message(now, false);
                    (t, hand_on)
                },
                Frame::Close => {
                    t.deadline = s.deadline;
                    t.state = ConnectionState::Disconnected;
                    t.waiting_pong = false;
                    (t, over)
                },
                _ => (t, go_on),
            }
        },
    }
}

/// What the runner is to do upon an event, and the state it is in
/// afterwards.
pub fn step(policy: &KeepalivePolicy, s: RunnerState, event: &RunnerEvent, now: i64) -> (r: (
    RunnerState,
    Reaction,
))
    ensures
        r == reaction(*policy, s, *event, now),
{
    let go_on = Reaction { outbound: Outbound::Nothing, forward: false, next: Next::Continue };
    let stop = Reaction { outbound: Outbound::Nothing, forward: false, next: Next::Stop };
    let over = Reaction {
        outbound: Outbound::Nothing,
        forward: false,
        next: Next::Reconnect { delay_ms: RECONNECT_DELAY_MS },
    };
    let over_closing = Reaction {
        outbound: Outbound::Close,
        forward: false,
        next: Next::Reconnect { delay_ms: RECONNECT_DELAY_MS },
    };
    let mut t = s;
    match s.state {
        ConnectionState::Disconnected | ConnectionState::Error => match event {
            RunnerEvent::Start => {
                t.state = ConnectionState::Connecting;
                t.waiting_pong = false;
                (t, Reaction { outbound: Outbound::Nothing, forward: false, next: Next::Connect })
            },
            RunnerEvent::ShutdownChanged(true) => (t, stop),
            _ => (t, go_on),
        },
        ConnectionState::Connecting => match event {
            RunnerEvent::ConnectSucceeded => {
                t.state = ConnectionState::Connected;
                t.deadline = policy.deadline(now);
                t.waiting_pong = false;
                (t, Reaction { outbound: Outbound::Subscription, forward: false, next: Next::Continue })
            },
            RunnerEvent::ConnectFailed => {
                t.state = ConnectionState::Error;
                t.waiting_pong = false;
                (t, over)
            },
            RunnerEvent::ShutdownChanged(true) => {
                t.state = ConnectionState::Disconnected;
                t.waiting_pong = false;
                (t, stop)
            },
            _ => (t, go_on),
        },
        ConnectionState::Connected => match event {
            RunnerEvent::ShutdownChanged(true) => {
                t.state = ConnectionState::Disconnected;
                t.waiting_pong = false;
                (t, Reaction { outbound: Outbound::Close, forward: false, next: Next::Stop })
            },
            RunnerEvent::TimerFired => {
                let overdue = match policy.style {
                    KeepaliveStyle::ServerPings => true,
                    KeepaliveStyle::ClientPings => s.waiting_pong,
                };
                if overdue {
                    t.state = ConnectionState::Disconnected;
                    t.waiting_pong = false;
                    (t, over_closing)
                } else {
                    t.waiting_pong = true;
                    t.deadline = policy.deadline(now);
                    (t, Reaction { outbound: Outbound::Ping, forward: false, next: Next::Continue })
                }
            },
            RunnerEvent::Command(ConnectionCommand::SendMessage(_)) => (
                t,
                Reaction { outbound: Outbound::Payload, forward: false, next: Next::Continue },
            ),
            RunnerEvent::Command(ConnectionCommand::Disconnect) => {
                t.state = ConnectionState::Disconnected;
                t.waiting_pong = false;
                (t, over_closing)
            },
            RunnerEvent::FrameReceived(frame) => step_frame(policy, s, frame, now),
            RunnerEvent::ReadFailed => {
                t.stats.note_error(now);
                t.state = ConnectionState::Disconnected;
                t.waiting_pong = false;
                (t, over)
            },
            RunnerEvent::SendFailed | RunnerEvent::ForwardFailed | RunnerEvent::SubscribeFailed => {
                t.state = ConnectionState::Disconnected;
                t.waiting_pong = false;
                (t, over)
            },
            _ => (t, go_on),
        },
    }
}

/// A runner leaves the connected state only to start anew or to end, and
/// it starts anew after five seconds: whenever an event takes a connected
/// runner out of that state, the runner is told to reconnect after the
/// usual pause or to stop, and whenever it is told to go on it is still
/// connected.
pub proof fn lemma_connected_until_told(policy: KeepalivePolicy, s: RunnerState, event: RunnerEvent, now: i64)
    requires
        s.state == ConnectionState::Connected,
    ensures
        ({
            let (after, what) = reaction(policy, s, event, now);
            &&& what.next == Next::Continue ==> after.state == ConnectionState::Connected
            &&& what.next != Next::Continue ==> after.state == ConnectionState::Disconnected && (
            what.next == Next::Stop || what.next == (Next::Reconnect { delay_ms: RECONNECT_DELAY_MS }))
            &&& what.next != Next::Connect
        }),
{
}

/// A keepalive that is overdue ends the connection: a timer that fires
/// while a ping of the client is unanswered, or at all where the server
/// pings, closes the connection and starts it anew.
pub proof fn lemma_overdue_keepalive_reconnects(policy: KeepalivePolicy, s: RunnerState, now: i64)
    requires
        s.state == ConnectionState::Connected,
        policy.style == KeepaliveStyle::ServerPings || s.waiting_pong,
    ensures
        reaction(policy, s, RunnerEvent::TimerFired, now).1 == start_over(true),
        reaction(policy, s, RunnerEvent::TimerFired, now).0.state == ConnectionState::Disconnected,
{
}

} // verus!
