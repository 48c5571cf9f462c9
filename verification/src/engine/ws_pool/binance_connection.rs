//! The runner of a connection to Binance.

use vstd::prelude::*;
use crate::engine::ws_pool::connection::BaseConnection;
use crate::engine::ws_pool::keepalive::{
    reaction, step, KeepalivePolicy, KeepaliveStyle, Reaction, RunnerEvent, RunnerState,
};

verus! {

pub struct BinanceConnection {
    pub base: BaseConnection,
    /// How much later than expected a ping may come, in milliseconds.
    pub delay_interval_ms: i64,
    /// The time between two pings of the server, in milliseconds.
    pub ping_interval_ms: i64,
    pub runner: RunnerState,
}

impl BinanceConnection {
    /// The keepalive of the connection.
    pub open spec fn policy(self) -> KeepalivePolicy {
        KeepalivePolicy {
            style: KeepaliveStyle::ServerPings,
            interval_ms: self.ping_interval_ms,
            grace_ms: self.delay_interval_ms,
        }
    }

    /// A runner that expects a ping every 180 s, with 5 s of grace.
    pub fn new(base: BaseConnection) -> (r: BinanceConnection)
        ensures
            r.base == base,
            r.policy() == KeepalivePolicy::binance_spec(),
            r.base.state == base.state,
    {
        BinanceConnection {
            base,
            delay_interval_ms: 5_000,
            ping_interval_ms: 180_000,
            runner: RunnerState::new(),
        }
    }

    /// Takes in an event, and says what the runner is to do.
    pub fn handle(&mut self, event: &RunnerEvent, now: i64) -> (r: Reaction)
        ensures
            (final(self).runner, r) == reaction(old(self).policy(), old(self).runner, *event, now),
            final(self).base == (BaseConnection {
                state: final(self).runner.state,
                stats: final(self).runner.stats,
                ..old(self).base
            }),
            final(self).policy() == old(self).policy(),
    {
        let policy = KeepalivePolicy {
            style: KeepaliveStyle::ServerPings,
            interval_ms: self.ping_interval_ms,
            grace_ms: self.delay_interval_ms,
        };
        let (runner, what) = step(&policy, self.runner, event, now);
        self.runner = runner;
        self.base.state = runner.state;
        self.base.stats = runner.stats;
        what
    }
}

} // verus!
