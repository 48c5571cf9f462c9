//! The runner of a connection to OKX.

use vstd::prelude::*;
use crate::engine::ws_pool::connection::BaseConnection;
use crate::engine::ws_pool::keepalive::{reaction, step, KeepalivePolicy, Reaction, RunnerEvent, RunnerState};

verus! {

pub struct OkexConnection {
    pub base: BaseConnection,
    pub runner: RunnerState,
}

impl OkexConnection {
    /// A runner that pings every 25 s.
    pub fn new(base: BaseConnection) -> (r: OkexConnection)
        ensures
            r.base == base,
    {
        OkexConnection { base, runner: RunnerState::new() }
    }

    /// Takes in an event, and says what the runner is to do.
    pub fn handle(&mut self, event: &RunnerEvent, now: i64) -> (r: Reaction)
        ensures
            (final(self).runner, r) == reaction(
                KeepalivePolicy::okx_spec(),
                old(self).runner,
                *event,
                now,
            ),
            final(self).base == (BaseConnection {
                state: final(self).runner.state,
                stats: final(self).runner.stats,
                ..old(self).base
            }),
    {
        let (runner, what) = step(&KeepalivePolicy::okx(), self.runner, event, now);
        self.runner = runner;
        self.base.state = runner.state;
        self.base.stats = runner.stats;
        what
    }
}

} // verus!
