//! The choice of connections for an order: up to `count` of the healthy
//! connections of an exchange and a market, by one of four strategies.

use vstd::prelude::*;
use vstd::string::*;
use crate::common::table::Table;
use crate::engine::health::health_tracker::{
    distinct_ids, lists, ranked, HealthMetrics, HealthTracker, Ranking,
};

verus! {

/// The least score of a connection that is chosen by round robin, by
/// latency or at random.
pub const SELECTABLE_SCORE: u32 = 30_000;

#[derive(Debug, Clone, Copy, PartialEq, Eq, Structural)]
pub enum SelectionStrategy {
    /// Each call goes on where the last one stopped.
    RoundRobin,
    /// The highest scores.
    HealthScore,
    /// The shortest round-trip times.
    LeastLatency,
    /// Any, with equal chances.
    Random,
}

impl SelectionStrategy {
    /// The least score of a connection that the strategy chooses from.
    pub open spec fn min_score(self) -> u32 {
        match self {
            SelectionStrategy::HealthScore => 0,
            _ => SELECTABLE_SCORE,
        }
    }
}

/// The ids of a list of connections.
pub open spec fn ids_of(list: Seq<HealthMetrics>) -> Seq<u128> {
    Seq::new(list.len(), |i: int| list[i].connection_id)
}

/// Position `p` on a ring of `n` places, for `p` below `2 n`.
pub open spec fn on_ring(p: int, n: int) -> int {
    if p < n {
        p
    } else {
        p - n
    }
}

/// The ids at `taken` places of the ring of ids in a row, from `start`
/// on.
pub open spec fn rotation(ids: Seq<u128>, start: int, taken: int) -> Seq<u128> {
    Seq::new(taken as nat, |i: int| ids[on_ring(start + i, ids.len() as int)])
}

/// The ids of the first `count` connections of the list, or of all where
/// there are fewer.
pub fn first_ids(candidates: &Vec<HealthMetrics>, count: usize) -> (r: Vec<u128>)
    ensures
        r@ == ids_of(candidates@).take(
            if count < candidates@.len() {
                count as int
            } else {
                candidates@.len() as int
            },
        ),
{
    let n = if count < candidates.len() {
        count
    } else {
        candidates.len()
    };
    let mut out: Vec<u128> = Vec::new();
    let mut i: usize = 0;
    while i < n
        invariant
            i <= n,
            n <= candidates@.len(),
            out@ == ids_of(candidates@).take(i as int),
        decreases n - i,
    {
        out.push(candidates[i].connection_id);
        i += 1;
        proof {
            assert(out@ =~= ids_of(candidates@).take(i as int));
        }
    }
    out
}

/// The ids of up to `count` connections of the list in a row, starting at
/// the place of the cursor and going round at the end of the list, with
/// the place at which the next call goes on.
pub fn round_robin(candidates: &Vec<HealthMetrics>, cursor: usize, count: usize) -> (r: (Vec<u128>, usize))
    requires
        candidates@.len() > 0,
    ensures
        ({
            let n = candidates@.len() as int;
            let taken = if count < n {
                count as int
            } else {
                n
            };
            &&& r.0@ == rotation(ids_of(candidates@), cursor as int % n, taken)
            &&& r.1 == on_ring(cursor as int % n + taken, n)
            &&& r.1 < n
        }),
{
    let n = candidates.len();
    let taken = if count < n {
        count
    } else {
        n
    };
    let start = cursor % n;
    let mut at = start;
    let mut out: Vec<u128> = Vec::new();
    let mut i: usize = 0;
    while i < taken
        invariant
            i <= taken,
            taken <= n,
            n == candidates@.len(),
            start < n,
            at < n,
            i < n ==> at == on_ring(start + i, n as int),
            i == n ==> at == start,
            out@ == rotation(ids_of(candidates@), start as int, i as int),
        decreases taken - i,
    {
        out.push(candidates[at].connection_id);
        at = if at + 1 == n {
            0
        } else {
            at + 1
        };
        i += 1;
        proof {
            assert(out@ =~= rotation(ids_of(candidates@), start as int, i as int));
        }
    }
    (out, at)
}

/// Wraps `SliceRandom::shuffle` with the generator of the thread: the ids
/// are the same afterwards, each as often as before, in whatever order
/// chance gave them.
#[verifier::external_body]
fn shuffle(ids: &mut Vec<u128>)
    ensures
        final(ids)@.to_multiset() == old(ids)@.to_multiset(),
{
    rand::seq::SliceRandom::shuffle(ids.as_mut_slice(), &mut rand::thread_rng());
}

/// What every choice is: at most `count` connections, none twice, each
/// one registered with the tracker and fit to be chosen; and all that are
/// fit, unless `count` are chosen.
pub open spec fn is_choice(
    chosen: Seq<u128>,
    known: Map<u128, HealthMetrics>,
    exchange: Seq<char>,
    market_type: Seq<char>,
    min_score: u32,
    count: usize,
) -> bool {
    &&& chosen.len() <= count
    &&& chosen.no_duplicates()
    &&& forall|i: int|
        0 <= i < chosen.len() ==> known.dom().contains(#[trigger] chosen[i]) && known[chosen[i]].qualifies_spec(
            exchange,
            market_type,
            min_score,
        )
    &&& chosen.len() == count || forall|id: u128|
        known.dom().contains(id) && (#[trigger] known[id]).qualifies_spec(
            exchange,
            market_type,
            min_score,
        ) ==> chosen.contains(id)
}

/// The chosen connections stand in the order of the ranking, and no
/// connection that is fit but not chosen would stand before one of them.
pub open spec fn is_best_choice(
    chosen: Seq<u128>,
    known: Map<u128, HealthMetrics>,
    exchange: Seq<char>,
    market_type: Seq<char>,
    min_score: u32,
    ranking: Ranking,
) -> bool {
    &&& forall|i: int, j: int|
        0 <= i < j < chosen.len() ==> ranking.in_order(
            known[#[trigger] chosen[i]],
            known[#[trigger] chosen[j]],
        )
    &&& forall|id: u128, i: int|
        known.dom().contains(id) && (#[trigger] known[id]).qualifies_spec(
            exchange,
            market_type,
            min_score,
        ) && !chosen.contains(id) && 0 <= i < chosen.len() ==> ranking.in_order(
            known[#[trigger] chosen[i]],
            known[id],
        )
}

/// The candidates are the connections of the tracker that are fit to be
/// chosen, each once.
pub open spec fn are_candidates(
    candidates: Seq<HealthMetrics>,
    known: Map<u128, HealthMetrics>,
    exchange: Seq<char>,
    market_type: Seq<char>,
    min_score: u32,
) -> bool {
    &&& distinct_ids(candidates)
    &&& forall|i: int|
        0 <= i < candidates.len() ==> known.dom().contains((#[trigger] candidates[i]).connection_id)
            && known[candidates[i].connection_id] == candidates[i] && candidates[i].qualifies_spec(
            exchange,
            market_type,
            min_score,
        )
    &&& forall|id: u128|
        known.dom().contains(id) && (#[trigger] known[id]).qualifies_spec(
            exchange,
            market_type,
            min_score,
        ) ==> lists(candidates, known[id]) && known[id].connection_id == id
}

/// The first connections of a ranked list of candidates are the best
/// choice.
pub proof fn lemma_first_are_best(
    candidates: Seq<HealthMetrics>,
    known: Map<u128, HealthMetrics>,
    exchange: Seq<char>,
    market_type: Seq<char>,
    min_score: u32,
    ranking: Ranking,
    count: usize,
)
    requires
        are_candidates(candidates, known, exchange, market_type, min_score),
        ranked(candidates, ranking),
    ensures
        ({
            let taken = if count < candidates.len() {
                count as int
            } else {
                candidates.len() as int
            };
            let chosen = ids_of(candidates).take(taken);
            &&& is_choice(chosen, known, exchange, market_type, min_score, count)
            &&& is_best_choice(chosen, known, exchange, market_type, min_score, ranking)
        }),
{
    let taken = if count < candidates.len() {
        count as int
    } else {
        candidates.len() as int
    };
    let chosen = ids_of(candidates).take(taken);
    assert forall|i: int, j: int| 0 <= i < chosen.len() && 0 <= j < chosen.len() && i != j implies chosen[i]
        != chosen[j] by {
        if i < j {
            assert(candidates[i].connection_id != candidates[j].connection_id);
        } else {
            assert(candidates[j].connection_id != candidates[i].connection_id);
        }
    }
    assert forall|i: int| 0 <= i < chosen.len() implies known.dom().contains(#[trigger] chosen[i])
        && known[chosen[i]].qualifies_spec(exchange, market_type, min_score) by {
        assert(candidates[i].connection_id == chosen[i]);
    }
    assert forall|id: u128|
        known.dom().contains(id) && (#[trigger] known[id]).qualifies_spec(
            exchange,
            market_type,
            min_score,
        ) implies chosen.contains(id) || (chosen.len() == count && forall|i: int|
            0 <= i < chosen.len() ==> ranking.in_order(known[#[trigger] chosen[i]], known[id])) by {
        assert(lists(candidates, known[id]));
        let p = choose|p: int| 0 <= p < candidates.len() && #[trigger] candidates[p] == known[id];
        assert(candidates[p].connection_id == id);
        if p < taken {
            assert(chosen[p] == id);
        } else {
            assert forall|i: int| 0 <= i < chosen.len() implies ranking.in_order(
                known[#[trigger] chosen[i]],
                known[id],
            ) by {
                assert(candidates[i].connection_id == chosen[i]);
                assert(ranking.in_order(candidates[i], candidates[p]));
            }
        }
    }
    assert forall|i: int, j: int| 0 <= i < j < chosen.len() implies ranking.in_order(
        known[#[trigger] chosen[i]],
        known[#[trigger] chosen[j]],
    ) by {
        assert(candidates[i].connection_id == chosen[i]);
        assert(candidates[j].connection_id == chosen[j]);
        assert(ranking.in_order(candidates[i], candidates[j]));
    }
}

/// Connections in a row on the ring of candidates are a choice.
pub proof fn lemma_rotation_is_choice(
    candidates: Seq<HealthMetrics>,
    known: Map<u128, HealthMetrics>,
    exchange: Seq<char>,
    market_type: Seq<char>,
    min_score: u32,
    start: int,
    count: usize,
)
    requires
        are_candidates(candidates, known, exchange, market_type, min_score),
        0 <= start < candidates.len(),
    ensures
        is_choice(
            rotation(
                ids_of(candidates),
                start,
                if count < candidates.len() {
                    count as int
                } else {
                    candidates.len() as int
                },
            ),
            known,
            exchange,
            market_type,
            min_score,
            count,
        ),
{
    let n = candidates.len() as int;
    let taken = if count < n {
        count as int
    } else {
        n
    };
    let chosen = rotation(ids_of(candidates), start, taken);
    assert forall|i: int, j: int| 0 <= i < chosen.len() && 0 <= j < chosen.len() && i != j implies chosen[i]
        != chosen[j] by {
        let a = on_ring(start + i, n);
        let b = on_ring(start + j, n);
        assert(a != b);
        if a < b {
            assert(candidates[a].connection_id != candidates[b].connection_id);
        } else {
            assert(candidates[b].connection_id != candidates[a].connection_id);
        }
    }
    assert forall|i: int| 0 <= i < chosen.len() implies known.dom().contains(#[trigger] chosen[i])
        && known[chosen[i]].qualifies_spec(exchange, market_type, min_score) by {
        let a = on_ring(start + i, n);
        assert(candidates[a].connection_id == chosen[i]);
    }
    if taken == n {
        assert forall|id: u128|
            known.dom().contains(id) && (#[trigger] known[id]).qualifies_spec(
                exchange,
                market_type,
                min_score,
            ) implies chosen.contains(id) by {
            assert(lists(candidates, known[id]));
            let p = choose|p: int| 0 <= p < candidates.len() && #[trigger] candidates[p] == known[id];
            assert(candidates[p].connection_id == id);
            let i = if p >= start {
                p - start
            } else {
                p - start + n
            };
            assert(on_ring(start + i, n) == p);
            assert(chosen[i] == id);
        }
    }
}

/// The first ones of the candidates in any order are a choice.
pub proof fn lemma_reordered_is_choice(
    candidates: Seq<HealthMetrics>,
    reordered: Seq<u128>,
    known: Map<u128, HealthMetrics>,
    exchange: Seq<char>,
    market_type: Seq<char>,
    min_score: u32,
    count: usize,
)
    requires
        are_candidates(candidates, known, exchange, market_type, min_score),
        reordered.to_multiset() == ids_of(candidates).to_multiset(),
    ensures
        is_choice(
            reordered.take(
                if count < reordered.len() {
                    count as int
                } else {
                    reordered.len() as int
                },
            ),
            known,
            exchange,
            market_type,
            min_score,
            count,
        ),
{
    let ids = ids_of(candidates);
    let taken = if count < reordered.len() {
        count as int
    } else {
        reordered.len() as int
    };
    let chosen = reordered.take(taken);
    assert(ids.no_duplicates()) by {
        assert forall|i: int, j: int| 0 <= i < ids.len() && 0 <= j < ids.len() && i != j implies ids[i]
            != ids[j] by {
            if i < j {
                assert(candidates[i].connection_id != candidates[j].connection_id);
            } else {
                assert(candidates[j].connection_id != candidates[i].connection_id);
            }
        }
    }
    ids.lemma_multiset_has_no_duplicates();
    reordered.lemma_multiset_has_no_duplicates_conv();
    ids.to_multiset_ensures();
    reordered.to_multiset_ensures();
    assert forall|i: int| 0 <= i < chosen.len() implies known.dom().contains(#[trigger] chosen[i])
        && known[chosen[i]].qualifies_spec(exchange, market_type, min_score) by {
        assert(reordered.contains(reordered[i]));
        assert(ids.to_multiset().count(reordered[i]) > 0);
        assert(ids.contains(reordered[i]));
        let p = choose|p: int| 0 <= p < ids.len() && ids[p] == reordered[i];
        assert(candidates[p].connection_id == chosen[i]);
    }
    if taken == reordered.len() {
        assert forall|id: u128|
            known.dom().contains(id) && (#[trigger] known[id]).qualifies_spec(
                exchange,
                market_type,
                min_score,
            ) implies chosen.contains(id) by {
            assert(lists(candidates, known[id]));
            let p = choose|p: int| 0 <= p < candidates.len() && #[trigger] candidates[p] == known[id];
            assert(ids[p] == id);
            assert(ids.contains(id));
            assert(reordered.to_multiset().count(id) > 0);
            assert(reordered.contains(id));
            assert(chosen =~= reordered);
        }
    }
}

/// Chooses connections by a strategy that it is given once.
pub struct ConnectionSelector {
    pub strategy: SelectionStrategy,
    /// Where the next round-robin choice goes on, by exchange and market.
    pub round_robin_indices: Table<usize>,
}

/// The key of the cursor of an exchange and a market.
pub open spec fn ring_key(exchange: Seq<char>, market_type: Seq<char>) -> Seq<char> {
    exchange + "_"@ + market_type
}

/// A turn of the round robin over the candidates: the chosen connections
/// are the next `count` on the ring of candidates, from the place of the
/// cursor on, or all where there are fewer, and the cursor goes on to the
/// place behind them. Without candidates nothing is chosen and the cursor
/// stays.
pub open spec fn is_turn(
    candidates: Seq<HealthMetrics>,
    before: Option<usize>,
    after: Option<usize>,
    chosen: Seq<u128>,
    count: usize,
) -> bool {
    let n = candidates.len() as int;
    let cursor = match before {
        Some(c) => c as int,
        None => 0,
    };
    if n == 0 {
        chosen.len() == 0 && after == before
    } else {
        let taken = if count < n {
            count as int
        } else {
            n
        };
        &&& chosen == rotation(ids_of(candidates), cursor % n, taken)
        &&& after == Some(on_ring(cursor % n + taken, n) as usize)
    }
}

impl ConnectionSelector {
    /// The table of cursors is well-formed.
    pub open spec fn wf(self) -> bool {
        self.round_robin_indices.wf()
    }

    /// A selector with the given strategy.
    pub fn new(strategy: SelectionStrategy) -> (r: ConnectionSelector)
        ensures
            r.strategy == strategy,
            r.wf(),
            forall|k: Seq<char>| #[trigger] r.round_robin_indices.get(k) is None,
    {
        ConnectionSelector { strategy, round_robin_indices: Table::new() }
    }

    /// Chooses up to `count` of the connections of an exchange and a
    /// market that are healthy and have the least score of the strategy:
    /// the best by score or by latency, the next ones round robin, or any
    /// at random.
    pub fn select_connections(&mut self, tracker: &HealthTracker, exchange: &str, market_type: &str, count: usize) -> (r:
        Vec<u128>)
        requires
            old(self).wf(),
            tracker.wf(),
        ensures
            final(self).wf(),
            final(self).strategy == old(self).strategy,
            is_choice(r@, tracker@, exchange@, market_type@, old(self).strategy.min_score(), count),
            old(self).strategy == SelectionStrategy::HealthScore ==> is_best_choice(
                r@,
                tracker@,
                exchange@,
                market_type@,
                0,
                Ranking::ByScore,
            ),
            old(self).strategy == SelectionStrategy::LeastLatency ==> is_best_choice(
                r@,
                tracker@,
                exchange@,
                market_type@,
                SELECTABLE_SCORE,
                Ranking::ByLatency,
            ),
            old(self).strategy != SelectionStrategy::RoundRobin ==> final(self).round_robin_indices
                == old(self).round_robin_indices,
            old(self).strategy == SelectionStrategy::RoundRobin ==> {
                &&& forall|k: Seq<char>|
                    k != ring_key(exchange@, market_type@) ==> #[trigger] final(self).round_robin_indices.get(k)
                        == old(self).round_robin_indices.get(k)
                &&& exists|candidates: Seq<HealthMetrics>|
                    #[trigger] are_candidates(candidates, tracker@, exchange@, market_type@, SELECTABLE_SCORE)
                        && ranked(candidates, Ranking::ByScore) && is_turn(
                        candidates,
                        old(self).round_robin_indices.get(ring_key(exchange@, market_type@)),
                        final(self).round_robin_indices.get(ring_key(exchange@, market_type@)),
                        r@,
                        count,
                    )
            },
    {
        match self.strategy {
            SelectionStrategy::HealthScore => {
                let candidates = tracker.get_ranked_connections(exchange, market_type, 0, Ranking::ByScore);
                proof {
                    assert(are_candidates(candidates@, tracker@, exchange@, market_type@, 0));
                    lemma_first_are_best(
                        candidates@,
                        tracker@,
                        exchange@,
                        market_type@,
                        0,
                        Ranking::ByScore,
                        count,
                    );
                }
                let out = first_ids(&candidates, count);
                proof {
                    assert(is_choice(out@, tracker@, exchange@, market_type@, 0, count));
                }
                out
            },
            SelectionStrategy::LeastLatency => {
                let candidates = tracker.get_ranked_connections(
                    exchange,
                    market_type,
                    SELECTABLE_SCORE,
                    Ranking::ByLatency,
                );
                proof {
                    assert(are_candidates(
                        candidates@,
                        tracker@,
                        exchange@,
                        market_type@,
                        SELECTABLE_SCORE,
                    ));
                    lemma_first_are_best(
                        candidates@,
                        tracker@,
                        exchange@,
                        market_type@,
                        SELECTABLE_SCORE,
                        Ranking::ByLatency,
                        count,
                    );
                }
                let out = first_ids(&candidates, count);
                proof {
                    assert(is_choice(out@, tracker@, exchange@, market_type@, SELECTABLE_SCORE, count));
                }
                out
            },
            SelectionStrategy::RoundRobin => {
                let candidates = tracker.get_ranked_connections(
                    exchange,
                    market_type,
                    SELECTABLE_SCORE,
                    Ranking::ByScore,
                );
                if candidates.len() == 0 {
                    let out: Vec<u128> = Vec::new();
                    proof {
                        assert forall|id: u128|
                            tracker@.dom().contains(id) && (#[trigger] tracker@[id]).qualifies_spec(
                                exchange@,
                                market_type@,
                                SELECTABLE_SCORE,
                            ) implies out@.contains(id) by {
                            assert(lists(candidates@, tracker@[id]));
                        }
                        assert(is_choice(
                            out@,
                            tracker@,
                            exchange@,
                            market_type@,
                            SELECTABLE_SCORE,
                            count,
                        ));
                        assert(are_candidates(
                            candidates@,
                            tracker@,
                            exchange@,
                            market_type@,
                            SELECTABLE_SCORE,
                        ));
                        assert(is_turn(
                            candidates@,
                            old(self).round_robin_indices.get(ring_key(exchange@, market_type@)),
                            self.round_robin_indices.get(ring_key(exchange@, market_type@)),
                            out@,
                            count,
                        ));
                    }
                    return out;
                }
                let mut key = String::from_str(exchange);
                key.append("_");
                key.append(market_type);
                let cursor = match self.round_robin_indices.lookup(key.as_str()) {
                    Some(c) => *c,
                    None => 0,
                };
                let (chosen, next) = round_robin(&candidates, cursor, count);
                self.round_robin_indices.upsert(key, next);
                proof {
                    assert(are_candidates(
                        candidates@,
                        tracker@,
                        exchange@,
                        market_type@,
                        SELECTABLE_SCORE,
                    ));
                    lemma_rotation_is_choice(
                        candidates@,
                        tracker@,
                        exchange@,
                        market_type@,
                        SELECTABLE_SCORE,
                        cursor as int % (candidates@.len() as int),
                        count,
                    );
                    assert(is_choice(chosen@, tracker@, exchange@, market_type@, SELECTABLE_SCORE, count));
                    assert(key@ =~= ring_key(exchange@, market_type@));
                    assert(is_turn(
                        candidates@,
                        old(self).round_robin_indices.get(ring_key(exchange@, market_type@)),
                        self.round_robin_indices.get(ring_key(exchange@, market_type@)),
                        chosen@,
                        count,
                    ));
                }
                chosen
            },
            SelectionStrategy::Random => {
                let candidates = tracker.get_ranked_connections(
                    exchange,
                    market_type,
                    SELECTABLE_SCORE,
                    Ranking::ByScore,
                );
                let mut ids = first_ids(&candidates, candidates.len());
                proof {
                    assert(ids@ =~= ids_of(candidates@));
                }
                shuffle(&mut ids);
                let ghost shuffled = ids@;
                proof {
                    assert(are_candidates(
                        candidates@,
                        tracker@,
                        exchange@,
                        market_type@,
                        SELECTABLE_SCORE,
                    ));
                    lemma_reordered_is_choice(
                        candidates@,
                        shuffled,
                        tracker@,
                        exchange@,
                        market_type@,
                        SELECTABLE_SCORE,
                        count,
                    );
                }
                ids.truncate(count);
                proof {
                    assert(ids@ =~= shuffled.take(
                        if count < shuffled.len() {
                            count as int
                        } else {
                            shuffled.len() as int
                        },
                    ));
                    assert(is_choice(ids@, tracker@, exchange@, market_type@, SELECTABLE_SCORE, count));
                }
                ids
            },
        }
    }

    /// The one connection that the strategy chooses, if there is any to
    /// choose from.
    pub fn select_best_connection(&mut self, tracker: &HealthTracker, exchange: &str, market_type: &str) -> (r:
        Option<u128>)
        requires
            old(self).wf(),
            tracker.wf(),
        ensures
            final(self).wf(),
            match r {
                Some(id) => is_choice(
                    seq![id],
                    tracker@,
                    exchange@,
                    market_type@,
                    old(self).strategy.min_score(),
                    1,
                ),
                None => is_choice(
                    Seq::empty(),
                    tracker@,
                    exchange@,
                    market_type@,
                    old(self).strategy.min_score(),
                    1,
                ),
            },
            final(self).strategy == old(self).strategy,
            old(self).strategy == SelectionStrategy::HealthScore ==> is_best_choice(
                match r {
                    Some(id) => seq![id],
                    None => Seq::empty(),
                },
                tracker@,
                exchange@,
                market_type@,
                0,
                Ranking::ByScore,
            ),
            old(self).strategy == SelectionStrategy::LeastLatency ==> is_best_choice(
                match r {
                    Some(id) => seq![id],
                    None => Seq::empty(),
                },
                tracker@,
                exchange@,
                market_type@,
                SELECTABLE_SCORE,
                Ranking::ByLatency,
            ),
            old(self).strategy != SelectionStrategy::RoundRobin ==> final(self).round_robin_indices
                == old(self).round_robin_indices,
    {
        let chosen = self.select_connections(tracker, exchange, market_type, 1);
        if chosen.len() > 0 {
            proof {
                assert(chosen@ =~= seq![chosen@[0]]);
            }
            Some(chosen[0])
        } else {
            proof {
                assert(chosen@ =~= Seq::<u128>::empty());
            }
            None
        }
    }

    /// Up to `count` of the best connections of an exchange and a market
    /// other than `primary_id`, for use when that one fails.
    pub fn get_backup_connections(
        &self,
        tracker: &HealthTracker,
        exchange: &str,
        market_type: &str,
        primary_id: u128,
        count: usize,
    ) -> (r: Vec<u128>)
        requires
            tracker.wf(),
        ensures
            r@.len() <= count,
            r@.no_duplicates(),
            forall|i: int|
                0 <= i < r@.len() ==> (#[trigger] r@[i]) != primary_id && tracker@.dom().contains(r@[i])
                    && tracker@[r@[i]].qualifies_spec(exchange@, market_type@, SELECTABLE_SCORE),
            forall|i: int, j: int|
                0 <= i < j < r@.len() ==> tracker@[#[trigger] r@[i]].health_score >= tracker@[
                #[trigger] r@[j]].health_score,
            r@.len() == count || forall|id: u128|
                id != primary_id && tracker@.dom().contains(id) && (#[trigger] tracker@[id]).qualifies_spec(
                    exchange@,
                    market_type@,
                    SELECTABLE_SCORE,
                ) ==> r@.contains(id),
    {
        let candidates = tracker.get_healthy_connections(exchange, market_type, SELECTABLE_SCORE);
        let mut out: Vec<u128> = Vec::new();
        let ghost mut picked: Seq<int> = Seq::empty();
        let mut i: usize = 0;
        while i < candidates.len() && out.len() < count
            invariant
                i <= candidates@.len(),
                out@.len() <= count,
                picked.len() == out@.len(),
                forall|k: int|
                    0 <= k < picked.len() ==> 0 <= #[trigger] picked[k] < i && candidates@[picked[k]].connection_id
                        == out@[k] && out@[k] != primary_id,
                forall|a: int, b: int| 0 <= a < b < picked.len() ==> #[trigger] picked[a] < #[trigger] picked[b],
                forall|p: int|
                    0 <= p < i && (#[trigger] candidates@[p]).connection_id != primary_id ==> out@.contains(
                        candidates@[p].connection_id,
                    ),
            decreases candidates@.len() - i,
        {
            if candidates[i].connection_id != primary_id {
                let ghost before = out@;
                out.push(candidates[i].connection_id);
                proof {
                    picked = picked.push(i as int);
                    assert forall|p: int|
                        0 <= p < i + 1 && (#[trigger] candidates@[p]).connection_id
                            != primary_id implies out@.contains(candidates@[p].connection_id) by {
                        if p < i {
                            assert(before.contains(candidates@[p].connection_id));
                            let k = choose|k: int| 0 <= k < before.len() && before[k] == candidates@[p].connection_id;
                            assert(out@[k] == candidates@[p].connection_id);
                        } else {
                            assert(out@[out@.len() - 1] == candidates@[p].connection_id);
                        }
                    }
                }
            }
            i += 1;
        }
        proof {
            assert forall|a: int, b: int| 0 <= a < out@.len() && 0 <= b < out@.len() && a != b implies out@[a]
                != out@[b] by {
                if a < b {
                    assert(picked[a] < picked[b]);
                    assert(candidates@[picked[a]].connection_id != candidates@[picked[b]].connection_id);
                } else {
                    assert(picked[b] < picked[a]);
                    assert(candidates@[picked[b]].connection_id != candidates@[picked[a]].connection_id);
                }
            }
            assert forall|k: int| 0 <= k < out@.len() implies (#[trigger] out@[k]) != primary_id
                && tracker@.dom().contains(out@[k]) && tracker@[out@[k]].qualifies_spec(
                exchange@,
                market_type@,
                SELECTABLE_SCORE,
            ) by {
                assert(candidates@[picked[k]].connection_id == out@[k]);
            }
            assert forall|a: int, b: int| 0 <= a < b < out@.len() implies tracker@[
            #[trigger] out@[a]].health_score >= tracker@[#[trigger] out@[b]].health_score by {
                assert(picked[a] < picked[b]);
                assert(candidates@[picked[a]].connection_id == out@[a]);
                assert(candidates@[picked[b]].connection_id == out@[b]);
                assert(Ranking::ByScore.in_order(candidates@[picked[a]], candidates@[picked[b]]));
            }
            if out@.len() != count {
                assert forall|id: u128|
                    id != primary_id && tracker@.dom().contains(id) && (#[trigger] tracker@[id]).qualifies_spec(
                        exchange@,
                        market_type@,
                        SELECTABLE_SCORE,
                    ) implies out@.contains(id) by {
                    assert(lists(candidates@, tracker@[id]));
                    let p = choose|p: int| 0 <= p < candidates@.len() && #[trigger] candidates@[p] == tracker@[id];
                    assert(tracker@[id].connection_id == id);
                    assert(candidates@[p].connection_id == id);
                }
            }
        }
        out
    }
}

} // verus!
