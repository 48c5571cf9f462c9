//! The health of a connection: a score from the share of successes, the
//! round-trip time, the run of failures and the age of the last update.
//!
//! Scores and rates are held in thousandths (a score of 100 is 100 000),
//! round-trip times in microseconds, points in time in milliseconds.

use vstd::prelude::*;
use vstd::arithmetic::div_mod::{lemma_div_is_ordered, lemma_div_is_ordered_by_denominator};
use crate::common::text::str_equal;

verus! {

/// The largest score, and the rate of a connection without failures.
pub const FULL: u32 = 100_000;

/// The least score of a healthy connection.
pub const HEALTHY_SCORE: u32 = 50_000;

/// The run of failures from which a connection is unhealthy.
pub const MAX_FAILURES: u32 = 5;

/// What is known of the health of one connection.
#[derive(Debug)]
pub struct HealthMetrics {
    pub connection_id: u128,
    pub exchange: String,
    pub market_type: String,
    /// 0 to 100 000.
    pub health_score: u32,
    /// The moving average of the round-trip time, in microseconds: each
    /// new time enters with a weight of one tenth.
    pub rtt_us: u64,
    /// The share of messages among messages and errors, 0 to 100 000.
    pub success_rate: u32,
    pub total_messages: u64,
    pub total_errors: u64,
    /// Milliseconds since the Unix epoch.
    pub last_update: i64,
    pub consecutive_failures: u32,
}

impl Clone for HealthMetrics {
    fn clone(&self) -> (r: Self)
        ensures
            r == *self,
    {
        HealthMetrics {
            connection_id: self.connection_id,
            exchange: self.exchange.clone(),
            market_type: self.market_type.clone(),
            health_score: self.health_score,
            rtt_us: self.rtt_us,
            success_rate: self.success_rate,
            total_messages: self.total_messages,
            total_errors: self.total_errors,
            last_update: self.last_update,
            consecutive_failures: self.consecutive_failures,
        }
    }
}

/// The share of `messages` among `messages + errors`, in thousandths of a
/// percent, rounded down; full where nothing was counted yet.
pub open spec fn rate_of(messages: u64, errors: u64) -> int {
    if messages + errors > 0 {
        (messages * 100_000) / (messages + errors)
    } else {
        100_000
    }
}

/// The points for the round-trip time: 30 below 10 ms, 25 below 50 ms, 20
/// below 100 ms, 15 below 200 ms, 10 below 500 ms, 5 from there on.
pub open spec fn rtt_points(rtt_us: u64) -> int {
    if rtt_us < 10_000 {
        30_000
    } else if rtt_us < 50_000 {
        25_000
    } else if rtt_us < 100_000 {
        20_000
    } else if rtt_us < 200_000 {
        15_000
    } else if rtt_us < 500_000 {
        10_000
    } else {
        5_000
    }
}

/// The points for the run of failures: 20 for none, 15, 10 and 5 for one,
/// two and three, none from four on.
pub open spec fn failure_points(failures: u32) -> int {
    if failures == 0 {
        20_000
    } else if failures == 1 {
        15_000
    } else if failures == 2 {
        10_000
    } else if failures == 3 {
        5_000
    } else {
        0
    }
}

/// The points for the age of the last update: 10 below 10 s, 8 below
/// 30 s, 6 below a minute, 4 below five minutes, 2 from there on.
pub open spec fn recency_points(age_ms: int) -> int {
    if age_ms < 10_000 {
        10_000
    } else if age_ms < 30_000 {
        8_000
    } else if age_ms < 60_000 {
        6_000
    } else if age_ms < 300_000 {
        4_000
    } else {
        2_000
    }
}

/// The score: four tenths of the rate, and the points for round-trip
/// time, failures and age; never above the full score.
pub open spec fn score_of(rate: int, rtt_us: u64, failures: u32, age_ms: int) -> int {
    let sum = rate * 4 / 10 + rtt_points(rtt_us) + failure_points(failures) + recency_points(age_ms);
    if sum > 100_000 {
        100_000
    } else {
        sum
    }
}

/// The moving average after a new round-trip time: nine tenths of the
/// old average and one tenth of the new time, rounded down.
pub open spec fn smoothed(rtt_us: u64, latest_us: u64) -> int {
    (rtt_us * 9 + latest_us) / 10
}

/// No score is above the full score, and none below zero.
pub proof fn lemma_score_in_range(rate: int, rtt_us: u64, failures: u32, age_ms: int)
    requires
        0 <= rate <= 100_000,
    ensures
        0 <= score_of(rate, rtt_us, failures, age_ms) <= 100_000,
{
}

/// One more error never raises the rate.
pub proof fn lemma_rate_falls(messages: u64, errors: u64)
    ensures
        rate_of(messages, (errors + 1) as u64) <= rate_of(messages, errors) || errors == u64::MAX,
        0 <= rate_of(messages, errors) <= 100_000,
{
    let x = messages * 100_000;
    if messages + errors > 0 {
        lemma_div_is_ordered_by_denominator(x, messages + errors, messages + errors + 1);
        lemma_div_is_ordered(x, (messages + errors) * 100_000, messages + errors);
        assert(((messages + errors) * 100_000) / (messages + errors) == 100_000) by (nonlinear_arith)
            requires
                messages + errors > 0,
        ;
        assert(x / (messages + errors) >= 0) by (nonlinear_arith)
            requires
                x >= 0,
                messages + errors > 0,
        ;
    } else {
        assert(x / 1 == 0);
    }
}

/// A lower rate and a longer run of failures never raise the score.
pub proof fn lemma_score_falls(rate_a: int, rate_b: int, rtt_us: u64, failures_a: u32, failures_b: u32, age_ms: int)
    requires
        rate_b <= rate_a,
        failures_a <= failures_b,
    ensures
        score_of(rate_b, rtt_us, failures_b, age_ms) <= score_of(rate_a, rtt_us, failures_a, age_ms),
{
    lemma_div_is_ordered(rate_b * 4, rate_a * 4, 10);
}

impl HealthMetrics {
    /// Rate and score are what the counts and times make them.
    pub open spec fn wf(self) -> bool {
        &&& self.success_rate == rate_of(self.total_messages, self.total_errors)
        &&& self.health_score == score_of(
            self.success_rate as int,
            self.rtt_us,
            self.consecutive_failures,
            0,
        )
    }

    pub open spec fn is_healthy_spec(self) -> bool {
        self.health_score >= HEALTHY_SCORE && self.consecutive_failures < MAX_FAILURES
    }

    /// The metrics of a connection that has not been used: full score,
    /// full rate, no round-trip time.
    pub fn new(connection_id: u128, exchange: String, market_type: String, now: i64) -> (r: HealthMetrics)
        ensures
            r.wf(),
            r == (HealthMetrics {
                connection_id,
                exchange,
                market_type,
                health_score: FULL,
                rtt_us: 0,
                success_rate: FULL,
                total_messages: 0,
                total_errors: 0,
                last_update: now,
                consecutive_failures: 0,
            }),
    {
        HealthMetrics {
            connection_id,
            exchange,
            market_type,
            health_score: FULL,
            rtt_us: 0,
            success_rate: FULL,
            total_messages: 0,
            total_errors: 0,
            last_update: now,
            consecutive_failures: 0,
        }
    }

    /// Brings rate and score up to the counts and times, as of `now`.
    fn recalculate_health_score(&mut self, now: i64)
        ensures
            *final(self) == (HealthMetrics {
                success_rate: rate_of(old(self).total_messages, old(self).total_errors) as u32,
                health_score: score_of(
                    rate_of(old(self).total_messages, old(self).total_errors),
                    old(self).rtt_us,
                    old(self).consecutive_failures,
                    if now > old(self).last_update {
                        now - old(self).last_update
                    } else {
                        0
                    },
                ) as u32,
                ..*old(self)
            }),
            0 <= rate_of(old(self).total_messages, old(self).total_errors) <= 100_000,
    {
        proof {
            lemma_rate_falls(self.total_messages, self.total_errors);
        }
        let total: u128 = self.total_messages as u128 + self.total_errors as u128;
        let rate: u32 = if total > 0 {
            ((self.total_messages as u128 * 100_000) / total) as u32
        } else {
            FULL
        };
        self.success_rate = rate;
        let rtt_points: u32 = if self.rtt_us < 10_000 {
            30_000
        } else if self.rtt_us < 50_000 {
            25_000
        } else if self.rtt_us < 100_000 {
            20_000
        } else if self.rtt_us < 200_000 {
            15_000
        } else if self.rtt_us < 500_000 {
            10_000
        } else {
            5_000
        };
        let failure_points: u32 = match self.consecutive_failures {
            0 => 20_000,
            1 => 15_000,
            2 => 10_000,
            3 => 5_000,
            _ => 0,
        };
        let age: i128 = if now > self.last_update {
            now as i128 - self.last_update as i128
        } else {
            0
        };
        let recency_points: u32 = if age < 10_000 {
            10_000
        } else if age < 30_000 {
            8_000
        } else if age < 60_000 {
            6_000
        } else if age < 300_000 {
            4_000
        } else {
            2_000
        };
        let sum: u32 = rate * 4 / 10 + rtt_points + failure_points + recency_points;
        self.health_score = if sum > FULL {
            FULL
        } else {
            sum
        };
    }

    /// Takes in a message that arrived after `rtt_us` microseconds: one
    /// more message, no run of failures, the round-trip time smoothed.
    pub fn update_success(&mut self, rtt_us: u64, now: i64)
        ensures
            final(self).wf(),
            final(self).health_score <= FULL,
            *final(self) == (HealthMetrics {
                total_messages: if old(self).total_messages < u64::MAX {
                    (old(self).total_messages + 1) as u64
                } else {
                    old(self).total_messages
                },
                consecutive_failures: 0,
                rtt_us: smoothed(old(self).rtt_us, rtt_us) as u64,
                last_update: now,
                success_rate: final(self).success_rate,
                health_score: final(self).health_score,
                ..*old(self)
            }),
    {
        if self.total_messages < u64::MAX {
            self.total_messages = self.total_messages + 1;
        }
        self.consecutive_failures = 0;
        self.rtt_us = ((self.rtt_us as u128 * 9 + rtt_us as u128) / 10) as u64;
        self.last_update = now;
        self.recalculate_health_score(now);
    }

    /// Takes in a failure: one more error, the run of failures one
    /// longer. The score does not rise.
    pub fn update_failure(&mut self, now: i64)
        requires
            old(self).wf(),
        ensures
            final(self).wf(),
            final(self).health_score <= old(self).health_score,
            final(self).health_score <= FULL,
            *final(self) == (HealthMetrics {
                total_errors: if old(self).total_errors < u64::MAX {
                    (old(self).total_errors + 1) as u64
                } else {
                    old(self).total_errors
                },
                consecutive_failures: if old(self).consecutive_failures < u32::MAX {
                    (old(self).consecutive_failures + 1) as u32
                } else {
                    old(self).consecutive_failures
                },
                last_update: now,
                success_rate: final(self).success_rate,
                health_score: final(self).health_score,
                ..*old(self)
            }),
    {
        proof {
            lemma_rate_falls(self.total_messages, self.total_errors);
        }
        if self.total_errors < u64::MAX {
            self.total_errors = self.total_errors + 1;
        }
        if self.consecutive_failures < u32::MAX {
            self.consecutive_failures = self.consecutive_failures + 1;
        }
        self.last_update = now;
        self.recalculate_health_score(now);
        proof {
            lemma_score_falls(
                old(self).success_rate as int,
                self.success_rate as int,
                self.rtt_us,
                old(self).consecutive_failures,
                self.consecutive_failures,
                0,
            );
        }
    }

    /// The connection is healthy: its score is at least 50, and its run
    /// of failures shorter than five.
    pub fn is_healthy(&self) -> (r: bool)
        ensures
            r == self.is_healthy_spec(),
    {
        self.health_score >= HEALTHY_SCORE && self.consecutive_failures < MAX_FAILURES
    }

    /// The connection is one to choose from: of the exchange and the
    /// market, healthy, with a score of at least `min_score`.
    pub open spec fn qualifies_spec(self, exchange: Seq<char>, market_type: Seq<char>, min_score: u32) -> bool {
        &&& self.exchange@ == exchange
        &&& self.market_type@ == market_type
        &&& self.health_score >= min_score
        &&& self.is_healthy_spec()
    }

    /// The connection is one to choose from.
    pub fn qualifies(&self, exchange: &str, market_type: &str, min_score: u32) -> (r: bool)
        ensures
            r == self.qualifies_spec(exchange@, market_type@, min_score),
    {
        str_equal(self.exchange.as_str(), exchange) && str_equal(
            self.market_type.as_str(),
            market_type,
        ) && self.health_score >= min_score && self.is_healthy()
    }
}

/// Starting from metrics that are what counts and times make them, a
/// failure never raises the score: however many failures follow one
/// another, the score after each is at most the score before it.
pub proof fn lemma_failure_never_raises_score(before: HealthMetrics, after: HealthMetrics)
    requires
        before.wf(),
        after.wf(),
        after.total_messages == before.total_messages,
        after.rtt_us == before.rtt_us,
        after.total_errors == before.total_errors + 1,
        after.consecutive_failures >= before.consecutive_failures,
    ensures
        after.health_score <= before.health_score,
        0 <= after.health_score <= FULL,
{
    lemma_rate_falls(before.total_messages, before.total_errors);
    lemma_rate_falls(after.total_messages, after.total_errors);
    lemma_score_falls(
        before.success_rate as int,
        after.success_rate as int,
        before.rtt_us,
        before.consecutive_failures,
        after.consecutive_failures,
        0,
    );
}

/// The table of a tracker.
pub type HealthTable = dashmap::DashMap<u128, HealthMetrics>;

/// What the table of a tracker holds: the metrics of each registered
/// connection, under the id of the connection.
pub uninterp spec fn health_entries(table: HealthTable) -> Map<u128, HealthMetrics>;

/// A table without entries.
pub open spec fn no_entries() -> Map<u128, HealthMetrics> {
    Map::empty()
}

/// Wraps `DashMap::new`: a table without entries.
#[verifier::external_body]
fn table_new() -> (r: HealthTable)
    ensures
        health_entries(r) == no_entries(),
{
    dashmap::DashMap::new()
}

/// Wraps `DashMap::insert`: the table has the value under the key, and
/// every other entry as before.
#[verifier::external_body]
fn table_insert(table: &mut HealthTable, id: u128, metrics: HealthMetrics)
    ensures
        health_entries(*final(table)) == health_entries(*old(table)).insert(id, metrics),
{
    table.insert(id, metrics);
}

/// Wraps `DashMap::get`: a copy of the value under the key, if there is
/// one.
#[verifier::external_body]
fn table_get(table: &HealthTable, id: u128) -> (r: Option<HealthMetrics>)
    ensures
        r == if health_entries(*table).dom().contains(id) {
            Some(health_entries(*table)[id])
        } else {
            None
        },
{
    table.get(&id).map(|entry| entry.value().clone())
}

/// Wraps `DashMap::remove`: the table has no entry under the key, and
/// every other entry as before.
#[verifier::external_body]
fn table_remove(table: &mut HealthTable, id: u128)
    ensures
        health_entries(*final(table)) == health_entries(*old(table)).remove(id),
{
    table.remove(&id);
}

/// Wraps `DashMap::iter`: copies of all entries, each key once, in the
/// order in which the table happens to hand them out.
#[verifier::external_body]
fn table_entries(table: &HealthTable) -> (r: Vec<(u128, HealthMetrics)>)
    ensures
        forall|i: int|
            0 <= i < r@.len() ==> health_entries(*table).dom().contains((#[trigger] r@[i]).0) && health_entries(
                *table,
            )[r@[i].0] == r@[i].1,
        forall|i: int, j: int| 0 <= i < j < r@.len() ==> (#[trigger] r@[i]).0 != (#[trigger] r@[j]).0,
        forall|id: u128|
            health_entries(*table).dom().contains(id) ==> exists|i: int|
                0 <= i < r@.len() && (#[trigger] r@[i]).0 == id,
{
    table.iter().map(|entry| (*entry.key(), entry.value().clone())).collect()
}

/// How connections are ranked.
#[derive(Debug, Clone, Copy, PartialEq, Eq, Structural)]
pub enum Ranking {
    /// The higher score first.
    ByScore,
    /// The shorter round-trip time first.
    ByLatency,
}

impl Ranking {
    /// `a` may stand before `b`.
    pub open spec fn in_order(self, a: HealthMetrics, b: HealthMetrics) -> bool {
        match self {
            Ranking::ByScore => a.health_score >= b.health_score,
            Ranking::ByLatency => a.rtt_us <= b.rtt_us,
        }
    }

    /// `a` may stand before `b`.
    pub fn ordered(self, a: &HealthMetrics, b: &HealthMetrics) -> (r: bool)
        ensures
            r == self.in_order(*a, *b),
    {
        match self {
            Ranking::ByScore => a.health_score >= b.health_score,
            Ranking::ByLatency => a.rtt_us <= b.rtt_us,
        }
    }
}

/// The list is ranked: each connection may stand before all that follow
/// it.
pub open spec fn ranked(list: Seq<HealthMetrics>, ranking: Ranking) -> bool {
    forall|i: int, j: int| 0 <= i < j < list.len() ==> ranking.in_order(#[trigger] list[i], #[trigger] list[j])
}

/// No connection is listed twice.
pub open spec fn distinct_ids(list: Seq<HealthMetrics>) -> bool {
    forall|i: int, j: int|
        0 <= i < j < list.len() ==> (#[trigger] list[i]).connection_id != (
        #[trigger] list[j]).connection_id
}

/// The connection is in the list.
pub open spec fn lists(list: Seq<HealthMetrics>, m: HealthMetrics) -> bool {
    exists|i: int| 0 <= i < list.len() && #[trigger] list[i] == m
}

/// Puts a connection into a ranked list, behind all that may stand before
/// it.
pub fn insert_ranked(list: &mut Vec<HealthMetrics>, m: HealthMetrics, ranking: Ranking)
    requires
        ranked(old(list)@, ranking),
    ensures
        ranked(final(list)@, ranking),
        final(list)@.len() == old(list)@.len() + 1,
        lists(final(list)@, m),
        forall|x: HealthMetrics| lists(old(list)@, x) ==> lists(final(list)@, x),
        forall|x: HealthMetrics| lists(final(list)@, x) ==> x == m || lists(old(list)@, x),
        exists|at: int|
            0 <= at <= old(list)@.len() && #[trigger] final(list)@ == old(list)@.insert(at, m),
{
    let mut at: usize = 0;
    while at < list.len() && ranking.ordered(&list[at], &m)
        invariant
            at <= list@.len(),
            list@ == old(list)@,
            forall|i: int| 0 <= i < at ==> ranking.in_order(#[trigger] list@[i], m),
        decreases list@.len() - at,
    {
        at += 1;
    }
    proof {
        if at < list@.len() {
            assert(!ranking.in_order(list@[at as int], m));
            assert forall|j: int| at <= j < list@.len() implies ranking.in_order(m, #[trigger] list@[j]) by {
                if j > at {
                    assert(ranking.in_order(list@[at as int], list@[j]));
                }
            }
        }
    }
    list.insert(at, m);
    proof {
        let before = old(list)@;
        let after = list@;
        assert(after == before.insert(at as int, m));
        assert forall|i: int, j: int| 0 <= i < j < after.len() implies ranking.in_order(
            #[trigger] after[i],
            #[trigger] after[j],
        ) by {
            let i0 = if i < at { i } else { i - 1 };
            let j0 = if j < at { j } else { j - 1 };
            if i != at && j != at {
                assert(ranking.in_order(before[i0], before[j0]));
            } else if i == at {
                assert(ranking.in_order(m, before[j0]));
            } else {
                assert(ranking.in_order(before[i0], m));
            }
        }
        assert(after[at as int] == m);
        assert forall|x: HealthMetrics| lists(before, x) implies lists(after, x) by {
            let i = choose|i: int| 0 <= i < before.len() && #[trigger] before[i] == x;
            let i1 = if i < at { i } else { i + 1 };
            assert(after[i1] == x);
        }
        assert forall|x: HealthMetrics| lists(after, x) implies x == m || lists(before, x) by {
            let i = choose|i: int| 0 <= i < after.len() && #[trigger] after[i] == x;
            if i != at {
                let i0 = if i < at { i } else { i - 1 };
                assert(before[i0] == x);
            }
        }
    }
}

/// The metrics of all connections.
pub struct HealthTracker {
    metrics: HealthTable,
}

impl HealthTracker {
    /// The metrics of each registered connection, under the id of the
    /// connection.
    pub closed spec fn view(self) -> Map<u128, HealthMetrics> {
        health_entries(self.metrics)
    }

    /// Every connection stands under its own id, with a rate and a score
    /// that are what its counts and times make them.
    pub open spec fn wf(self) -> bool {
        forall|id: u128|
            self@.dom().contains(id) ==> (#[trigger] self@[id]).connection_id == id && self@[id].wf()
    }

    /// A tracker without connections.
    pub fn new() -> (r: HealthTracker)
        ensures
            r.wf(),
            r@ == Map::<u128, HealthMetrics>::empty(),
    {
        HealthTracker { metrics: table_new() }
    }

    /// Registers a connection, with the metrics of one that has not been
    /// used. A connection that is registered already starts over.
    pub fn register_connection(&mut self, connection_id: u128, exchange: String, market_type: String, now: i64)
        requires
            old(self).wf(),
        ensures
            final(self).wf(),
            final(self)@ == old(self)@.insert(
                connection_id,
                HealthMetrics {
                    connection_id,
                    exchange,
                    market_type,
                    health_score: FULL,
                    rtt_us: 0,
                    success_rate: FULL,
                    total_messages: 0,
                    total_errors: 0,
                    last_update: now,
                    consecutive_failures: 0,
                },
            ),
    {
        let metrics = HealthMetrics::new(connection_id, exchange, market_type, now);
        table_insert(&mut self.metrics, connection_id, metrics);
    }

    /// Takes in a message on a connection that arrived after `rtt_us`
    /// microseconds. An unknown connection changes nothing.
    pub fn update_success(&mut self, connection_id: u128, rtt_us: u64, now: i64)
        requires
            old(self).wf(),
        ensures
            final(self).wf(),
            final(self)@.dom() == old(self)@.dom(),
            forall|id: u128|
                id != connection_id && old(self)@.dom().contains(id) ==> #[trigger] final(self)@[id]
                    == old(self)@[id],
            old(self)@.dom().contains(connection_id) ==> {
                let before = old(self)@[connection_id];
                let after = final(self)@[connection_id];
                &&& after.total_messages == if before.total_messages < u64::MAX {
                    (before.total_messages + 1) as u64
                } else {
                    before.total_messages
                }
                &&& after.consecutive_failures == 0
                &&& after.rtt_us == smoothed(before.rtt_us, rtt_us)
                &&& after.last_update == now
                &&& after.total_errors == before.total_errors
                &&& after.exchange == before.exchange
                &&& after.market_type == before.market_type
            },
    {
        match table_get(&self.metrics, connection_id) {
            Some(m) => {
                let mut m = m;
                m.update_success(rtt_us, now);
                table_insert(&mut self.metrics, connection_id, m);
                proof {
                    assert(self@.dom() =~= old(self)@.dom());
                }
            },
            None => {},
        }
    }

    /// Takes in a failure on a connection; its score does not rise. An
    /// unknown connection changes nothing.
    pub fn update_failure(&mut self, connection_id: u128, now: i64)
        requires
            old(self).wf(),
        ensures
            final(self).wf(),
            final(self)@.dom() == old(self)@.dom(),
            forall|id: u128|
                id != connection_id && old(self)@.dom().contains(id) ==> #[trigger] final(self)@[id]
                    == old(self)@[id],
            old(self)@.dom().contains(connection_id) ==> {
                let before = old(self)@[connection_id];
                let after = final(self)@[connection_id];
                &&& after.health_score <= before.health_score
                &&& after.total_errors == if before.total_errors < u64::MAX {
                    (before.total_errors + 1) as u64
                } else {
                    before.total_errors
                }
                &&& after.consecutive_failures == if before.consecutive_failures < u32::MAX {
                    (before.consecutive_failures + 1) as u32
                } else {
                    before.consecutive_failures
                }
                &&& after.last_update == now
                &&& after.total_messages == before.total_messages
                &&& after.rtt_us == before.rtt_us
                &&& after.exchange == before.exchange
                &&& after.market_type == before.market_type
            },
    {
        match table_get(&self.metrics, connection_id) {
            Some(m) => {
                let mut m = m;
                proof {
                    assert(self@[connection_id].wf());
                }
                m.update_failure(now);
                table_insert(&mut self.metrics, connection_id, m);
                proof {
                    assert(self@.dom() =~= old(self)@.dom());
                }
            },
            None => {},
        }
    }

    /// A copy of the metrics of a connection.
    pub fn get_metrics(&self, connection_id: u128) -> (r: Option<HealthMetrics>)
        ensures
            r == if self@.dom().contains(connection_id) {
                Some(self@[connection_id])
            } else {
                None
            },
    {
        table_get(&self.metrics, connection_id)
    }

    /// The connections of an exchange and a market that are healthy and
    /// have a score of at least `min_score`, ranked: each of them once,
    /// and no other.
    pub fn get_ranked_connections(&self, exchange: &str, market_type: &str, min_score: u32, ranking: Ranking) -> (r:
        Vec<HealthMetrics>)
        requires
            self.wf(),
        ensures
            ranked(r@, ranking),
            distinct_ids(r@),
            forall|i: int|
                0 <= i < r@.len() ==> self@.dom().contains((#[trigger] r@[i]).connection_id)
                    && self@[r@[i].connection_id] == r@[i] && r@[i].qualifies_spec(
                    exchange@,
                    market_type@,
                    min_score,
                ),
            forall|id: u128|
                self@.dom().contains(id) && (#[trigger] self@[id]).qualifies_spec(
                    exchange@,
                    market_type@,
                    min_score,
                ) ==> lists(r@, self@[id]),
    {
        let entries = table_entries(&self.metrics);
        let mut out: Vec<HealthMetrics> = Vec::new();
        let mut i: usize = 0;
        while i < entries.len()
            invariant
                i <= entries@.len(),
                self.wf(),
                forall|p: int|
                    0 <= p < entries@.len() ==> self@.dom().contains((#[trigger] entries@[p]).0)
                        && self@[entries@[p].0] == entries@[p].1,
                forall|p: int, q: int|
                    0 <= p < q < entries@.len() ==> (#[trigger] entries@[p]).0 != (
                    #[trigger] entries@[q]).0,
                ranked(out@, ranking),
                forall|x: HealthMetrics|
                    lists(out@, x) ==> x.qualifies_spec(exchange@, market_type@, min_score)
                        && exists|p: int| 0 <= p < i && (#[trigger] entries@[p]).1 == x,
                forall|p: int|
                    0 <= p < i && (#[trigger] entries@[p]).1.qualifies_spec(
                        exchange@,
                        market_type@,
                        min_score,
                    ) ==> lists(out@, entries@[p].1),
                distinct_ids(out@),
            decreases entries@.len() - i,
        {
            if entries[i].1.qualifies(exchange, market_type, min_score) {
                let m = entries[i].1.clone();
                let ghost before = out@;
                insert_ranked(&mut out, m, ranking);
                proof {
                    let at = choose|at: int|
                        0 <= at <= before.len() && #[trigger] out@ == before.insert(at, m);
                    assert(entries@[i as int].1 == m);
                    assert(self@[entries@[i as int].0].connection_id == entries@[i as int].0);
                    assert forall|a: int, b: int| 0 <= a < b < out@.len() implies (
                    #[trigger] out@[a]).connection_id != (#[trigger] out@[b]).connection_id by {
                        let a0 = if a < at { a } else { a - 1 };
                        let b0 = if b < at { b } else { b - 1 };
                        if a != at && b != at {
                            assert(before[a0].connection_id != before[b0].connection_id);
                        } else {
                            let other = if a == at { before[b0] } else { before[a0] };
                            assert(lists(before, other));
                            let p = choose|p: int| 0 <= p < i && (#[trigger] entries@[p]).1 == other;
                            assert(self@[entries@[p].0].connection_id == entries@[p].0);
                            assert(entries@[p].0 != entries@[i as int].0);
                        }
                    }
                    assert forall|x: HealthMetrics| lists(out@, x) implies x.qualifies_spec(
                        exchange@,
                        market_type@,
                        min_score,
                    ) && exists|p: int| 0 <= p < i + 1 && (#[trigger] entries@[p]).1 == x by {
                        if x == m {
                            assert(entries@[i as int].1 == x);
                        } else {
                            assert(lists(before, x));
                            let p = choose|p: int| 0 <= p < i && (#[trigger] entries@[p]).1 == x;
                            assert(entries@[p].1 == x);
                        }
                    }
                }
            }
            i += 1;
        }
        proof {
            assert forall|k: int| 0 <= k < out@.len() implies self@.dom().contains(
                (#[trigger] out@[k]).connection_id,
            ) && self@[out@[k].connection_id] == out@[k] && out@[k].qualifies_spec(
                exchange@,
                market_type@,
                min_score,
            ) by {
                assert(lists(out@, out@[k]));
                let p = choose|p: int| 0 <= p < i && (#[trigger] entries@[p]).1 == out@[k];
                assert(self@[entries@[p].0].connection_id == entries@[p].0);
            }
            assert forall|id: u128|
                self@.dom().contains(id) && (#[trigger] self@[id]).qualifies_spec(
                    exchange@,
                    market_type@,
                    min_score,
                ) implies lists(out@, self@[id]) by {
                let p = choose|p: int| 0 <= p < entries@.len() && (#[trigger] entries@[p]).0 == id;
                assert(entries@[p].1 == self@[id]);
            }
        }
        out
    }

    /// The connections of an exchange and a market that are healthy and
    /// have a score of at least `min_score`, the best first.
    pub fn get_healthy_connections(&self, exchange: &str, market_type: &str, min_score: u32) -> (r: Vec<
        HealthMetrics,
    >)
        requires
            self.wf(),
        ensures
            ranked(r@, Ranking::ByScore),
            distinct_ids(r@),
            forall|i: int|
                0 <= i < r@.len() ==> self@.dom().contains((#[trigger] r@[i]).connection_id)
                    && self@[r@[i].connection_id] == r@[i] && r@[i].qualifies_spec(
                    exchange@,
                    market_type@,
                    min_score,
                ),
            forall|id: u128|
                self@.dom().contains(id) && (#[trigger] self@[id]).qualifies_spec(
                    exchange@,
                    market_type@,
                    min_score,
                ) ==> lists(r@, self@[id]),
    {
        self.get_ranked_connections(exchange, market_type, min_score, Ranking::ByScore)
    }

    /// The `k` best of the healthy connections of an exchange and a
    /// market; all of them where there are fewer.
    pub fn get_top_k_connections(&self, exchange: &str, market_type: &str, k: usize) -> (r: Vec<
        HealthMetrics,
    >)
        requires
            self.wf(),
        ensures
            ranked(r@, Ranking::ByScore),
            distinct_ids(r@),
            r@.len() <= k,
            forall|i: int|
                0 <= i < r@.len() ==> self@.dom().contains((#[trigger] r@[i]).connection_id)
                    && self@[r@[i].connection_id] == r@[i] && r@[i].qualifies_spec(
                    exchange@,
                    market_type@,
                    0,
                ),
            forall|id: u128|
                self@.dom().contains(id) && (#[trigger] self@[id]).qualifies_spec(
                    exchange@,
                    market_type@,
                    0,
                ) ==> lists(r@, self@[id]) || (r@.len() == k && forall|i: int|
                    0 <= i < r@.len() ==> (#[trigger] r@[i]).health_score >= self@[id].health_score),
    {
        let mut all = self.get_healthy_connections(exchange, market_type, 0);
        let ghost full = all@;
        all.truncate(k);
        proof {
            assert forall|id: u128|
                self@.dom().contains(id) && (#[trigger] self@[id]).qualifies_spec(
                    exchange@,
                    market_type@,
                    0,
                ) implies lists(all@, self@[id]) || (all@.len() == k && forall|i: int|
                    0 <= i < all@.len() ==> (#[trigger] all@[i]).health_score
                        >= self@[id].health_score) by {
                assert(lists(full, self@[id]));
                let p = choose|p: int| 0 <= p < full.len() && #[trigger] full[p] == self@[id];
                if p < all@.len() {
                    assert(all@[p] == self@[id]);
                } else {
                    assert forall|i: int| 0 <= i < all@.len() implies (
                    #[trigger] all@[i]).health_score >= self@[id].health_score by {
                        assert(Ranking::ByScore.in_order(full[i], full[p]));
                    }
                }
            }
            assert forall|a: int, b: int| 0 <= a < b < all@.len() implies Ranking::ByScore.in_order(
                #[trigger] all@[a],
                #[trigger] all@[b],
            ) by {
                assert(Ranking::ByScore.in_order(full[a], full[b]));
            }
            assert forall|a: int, b: int| 0 <= a < b < all@.len() implies (
            #[trigger] all@[a]).connection_id != (#[trigger] all@[b]).connection_id by {
                assert(full[a].connection_id != full[b].connection_id);
            }
        }
        all
    }

    /// Forgets a connection.
    pub fn remove_connection(&mut self, connection_id: u128)
        requires
            old(self).wf(),
        ensures
            final(self).wf(),
            final(self)@ == old(self)@.remove(connection_id),
    {
        table_remove(&mut self.metrics, connection_id);
    }

    /// Forgets the connections whose last update lies more than
    /// `max_age_ms` before `now`.
    pub fn cleanup_stale_connections(&mut self, max_age_ms: u64, now: i64)
        requires
            old(self).wf(),
        ensures
            final(self).wf(),
            forall|id: u128|
                #[trigger] final(self)@.dom().contains(id) <==> old(self)@.dom().contains(id)
                    && !is_stale(old(self)@[id], max_age_ms, now),
            forall|id: u128|
                final(self)@.dom().contains(id) ==> #[trigger] final(self)@[id] == old(self)@[id],
    {
        let entries = table_entries(&self.metrics);
        let mut i: usize = 0;
        while i < entries.len()
            invariant
                i <= entries@.len(),
                self.wf(),
                forall|p: int|
                    0 <= p < entries@.len() ==> old(self)@.dom().contains((#[trigger] entries@[p]).0)
                        && old(self)@[entries@[p].0] == entries@[p].1,
                forall|p: int, q: int|
                    0 <= p < q < entries@.len() ==> (#[trigger] entries@[p]).0 != (
                    #[trigger] entries@[q]).0,
                forall|id: u128|
                    old(self)@.dom().contains(id) ==> exists|p: int|
                        0 <= p < entries@.len() && (#[trigger] entries@[p]).0 == id,
                forall|id: u128|
                    #[trigger] self@.dom().contains(id) <==> old(self)@.dom().contains(id) && !(
                    exists|p: int|
                        0 <= p < i && (#[trigger] entries@[p]).0 == id && is_stale(
                            entries@[p].1,
                            max_age_ms,
                            now,
                        )),
                forall|id: u128| self@.dom().contains(id) ==> #[trigger] self@[id] == old(self)@[id],
            decreases entries@.len() - i,
        {
            let age: i128 = now as i128 - entries[i].1.last_update as i128;
            let ghost before = self@;
            let ghost key = entries@[i as int].0;
            let stale = age > max_age_ms as i128;
            if stale {
                table_remove(&mut self.metrics, entries[i].0);
            }
            proof {
                assert(stale == is_stale(entries@[i as int].1, max_age_ms, now));
                assert forall|id: u128| self@.dom().contains(id) implies (#[trigger] self@[id]).connection_id
                    == id && self@[id].wf() && self@[id] == old(self)@[id] by {
                    assert(before.dom().contains(id));
                    assert(before[id].connection_id == id && before[id].wf());
                }
                assert forall|id: u128|
                    #[trigger] self@.dom().contains(id) <==> old(self)@.dom().contains(id) && !(
                    exists|p: int|
                        0 <= p < i + 1 && (#[trigger] entries@[p]).0 == id && is_stale(
                            entries@[p].1,
                            max_age_ms,
                            now,
                        )) by {
                    let earlier = exists|p: int|
                        0 <= p < i && (#[trigger] entries@[p]).0 == id && is_stale(
                            entries@[p].1,
                            max_age_ms,
                            now,
                        );
                    let upto = exists|p: int|
                        0 <= p < i + 1 && (#[trigger] entries@[p]).0 == id && is_stale(
                            entries@[p].1,
                            max_age_ms,
                            now,
                        );
                    assert(before.dom().contains(id) <==> old(self)@.dom().contains(id) && !earlier);
                    if earlier {
                        let p = choose|p: int|
                            0 <= p < i && (#[trigger] entries@[p]).0 == id && is_stale(
                                entries@[p].1,
                                max_age_ms,
                                now,
                            );
                        assert(0 <= p < i + 1 && entries@[p].0 == id);
                        assert(upto);
                    }
                    if id == key && stale {
                        assert(entries@[i as int].0 == id);
                        assert(upto);
                    }
                    if upto && !earlier {
                        let p = choose|p: int|
                            0 <= p < i + 1 && (#[trigger] entries@[p]).0 == id && is_stale(
                                entries@[p].1,
                                max_age_ms,
                                now,
                            );
                        assert(p == i);
                    }
                }
            }
            i += 1;
        }
        proof {
            assert forall|id: u128|
                #[trigger] self@.dom().contains(id) <==> old(self)@.dom().contains(id) && !is_stale(
                    old(self)@[id],
                    max_age_ms,
                    now,
                ) by {
                if old(self)@.dom().contains(id) {
                    let p = choose|p: int| 0 <= p < entries@.len() && (#[trigger] entries@[p]).0 == id;
                    assert(entries@[p].1 == old(self)@[id]);
                }
            }
        }
    }
}

/// The last update of the connection lies more than `max_age_ms` before
/// `now`.
pub open spec fn is_stale(m: HealthMetrics, max_age_ms: u64, now: i64) -> bool {
    now - m.last_update > max_age_ms
}

} // verus!
