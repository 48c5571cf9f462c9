//! What the pool knows of one connection.
//!
//! Rates and scores are held in thousandths, round-trip times in
//! microseconds, points in time in milliseconds.

use vstd::prelude::*;
use crate::engine::health::health_tracker::rate_of;

verus! {

/// What the pool asks of a runner.
#[derive(Debug)]
pub enum ConnectionCommand {
    SendMessage(Vec<u8>),
    Disconnect,
}

#[derive(Debug, Clone, Copy, PartialEq, Eq, Structural)]
pub enum ConnectionState {
    Connecting,
    Connected,
    Disconnected,
    /// Disconnected after a failed attempt to connect.
    Error,
}

#[derive(Debug, Clone, Copy, PartialEq, Eq, Structural)]
pub struct ConnectionStats {
    pub total_messages: u64,
    pub total_errors: u64,
    pub last_message_time: Option<i64>,
    pub last_error_time: Option<i64>,
    pub rtt_us: u64,
    /// The share of messages among messages and errors, 0 to 100 000.
    pub success_rate: u32,
}

impl ConnectionStats {
    /// The statistics of a connection that has seen nothing.
    pub open spec fn fresh() -> ConnectionStats {
        ConnectionStats {
            total_messages: 0,
            total_errors: 0,
            last_message_time: None,
            last_error_time: None,
            rtt_us: 0,
            success_rate: 100_000,
        }
    }

    /// The statistics after a message came in at `now`; the rate is
    /// brought up to the counts where `rated` is set.
    pub open spec fn after_message(self, now: i64, rated: bool) -> ConnectionStats {
        let messages = if self.total_messages < u64::MAX {
            (self.total_messages + 1) as u64
        } else {
            self.total_messages
        };
        ConnectionStats {
            total_messages: messages,
            last_message_time: Some(now),
            success_rate: if rated {
                rate_of(messages, self.total_errors) as u32
            } else {
                self.success_rate
            },
            ..self
        }
    }

    /// The statistics after a read failed at `now`.
    pub open spec fn after_error(self, now: i64) -> ConnectionStats {
        ConnectionStats {
            total_errors: if self.total_errors < u64::MAX {
                (self.total_errors + 1) as u64
            } else {
                self.total_errors
            },
            last_error_time: Some(now),
            ..self
        }
    }

    /// Counts a message that came in at `now`.
    pub fn note_message(&mut self, now: i64, rated: bool)
        ensures
            *final(self) == old(self).after_message(now, rated),
    {
        if self.total_messages < u64::MAX {
            self.total_messages = self.total_messages + 1;
        }
        self.last_message_time = Some(now);
        if rated {
            proof {
                crate::engine::health::health_tracker::lemma_rate_falls(
                    self.total_messages,
                    self.total_errors,
                );
            }
            let total: u128 = self.total_messages as u128 + self.total_errors as u128;
            self.success_rate = if total > 0 {
                ((self.total_messages as u128 * 100_000) / total) as u32
            } else {
                100_000
            };
        }
    }

    /// Counts a read that failed at `now`.
    pub fn note_error(&mut self, now: i64)
        ensures
            *final(self) == old(self).after_error(now),
    {
        if self.total_errors < u64::MAX {
            self.total_errors = self.total_errors + 1;
        }
        self.last_error_time = Some(now);
    }
}

/// The score of a connection at `now`: 40 points for being connected, 20
/// for connecting, 10 for being disconnected; three tenths of the rate;
/// 20, 15, 10 or 5 points for a round-trip time below 10, 50, 100 or
/// 500 ms; 10 or 5 points for a message within the last minute or the
/// last five; 100 points at most.
pub open spec fn connection_score(stats: ConnectionStats, state: ConnectionState, now: i64) -> int {
    let sum = state_points(state) + stats.success_rate * 3 / 10 + (if stats.rtt_us < 10_000 {
        20_000int
    } else if stats.rtt_us < 50_000 {
        15_000
    } else if stats.rtt_us < 100_000 {
        10_000
    } else if stats.rtt_us < 500_000 {
        5_000
    } else {
        0
    }) + (match stats.last_message_time {
        Some(t) => if now - t < 60_000 {
            10_000int
        } else if now - t < 300_000 {
            5_000
        } else {
            0
        },
        None => 0,
    });
    if sum > 100_000 {
        100_000
    } else {
        sum
    }
}

/// The points for the state of a connection.
pub open spec fn state_points(state: ConnectionState) -> int {
    match state {
        ConnectionState::Connected => 40_000,
        ConnectionState::Connecting => 20_000,
        ConnectionState::Disconnected => 10_000,
        ConnectionState::Error => 0,
    }
}

/// One connection of the pool.
#[derive(Debug)]
pub struct BaseConnection {
    pub id: u128,
    pub exchange: String,
    pub market_type: String,
    pub url: String,
    pub state: ConnectionState,
    pub stats: ConnectionStats,
}

impl BaseConnection {
    /// A connection that is not connected and has seen nothing.
    pub fn new(id: u128, exchange: String, market_type: String, url: String) -> (r: BaseConnection)
        ensures
            r == (BaseConnection {
                id,
                exchange,
                market_type,
                url,
                state: ConnectionState::Disconnected,
                stats: ConnectionStats::fresh(),
            }),
    {
        BaseConnection {
            id,
            exchange,
            market_type,
            url,
            state: ConnectionState::Disconnected,
            stats: ConnectionStats {
                total_messages: 0,
                total_errors: 0,
                last_message_time: None,
                last_error_time: None,
                rtt_us: 0,
                success_rate: 100_000,
            },
        }
    }

    pub fn id(&self) -> (r: u128)
        ensures
            r == self.id,
    {
        self.id
    }

    pub fn exchange(&self) -> (r: &str)
        ensures
            r@ == self.exchange@,
    {
        self.exchange.as_str()
    }

    pub fn market_type(&self) -> (r: &str)
        ensures
            r@ == self.market_type@,
    {
        self.market_type.as_str()
    }

    pub fn set_state(&mut self, state: ConnectionState)
        ensures
            *final(self) == (BaseConnection { state, ..*old(self) }),
    {
        self.state = state;
    }

    pub fn state(&self) -> (r: ConnectionState)
        ensures
            r == self.state,
    {
        self.state
    }

    pub fn stats(&self) -> (r: ConnectionStats)
        ensures
            r == self.stats,
    {
        self.stats
    }

    /// The score of the connection at `now`, in thousandths.
    pub fn health_score(&self, now: i64) -> (r: u32)
        ensures
            r == connection_score(self.stats, self.state, now),
            r <= 100_000,
    {
        let state_points: u64 = match self.state {
            ConnectionState::Connected => 40_000,
            ConnectionState::Connecting => 20_000,
            ConnectionState::Disconnected => 10_000,
            ConnectionState::Error => 0,
        };
        let rate_points: u64 = self.stats.success_rate as u64 * 3 / 10;
        let rtt_points: u64 = if self.stats.rtt_us < 10_000 {
            20_000
        } else if self.stats.rtt_us < 50_000 {
            15_000
        } else if self.stats.rtt_us < 100_000 {
            10_000
        } else if self.stats.rtt_us < 500_000 {
            5_000
        } else {
            0
        };
        let recent_points: u64 = match self.stats.last_message_time {
            Some(t) => {
                let age: i128 = now as i128 - t as i128;
                if age < 60_000 {
                    10_000
                } else if age < 300_000 {
                    5_000
                } else {
                    0
                }
            },
            None => 0,
        };
        let sum: u64 = state_points + rate_points + rtt_points + recent_points;
        if sum > 100_000 {
            100_000
        } else {
            sum as u32
        }
    }
}

} // verus!
