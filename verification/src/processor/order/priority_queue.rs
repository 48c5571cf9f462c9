//! The queue of orders that wait for submission: eleven bands, one per
//! priority from 0 to 10, each first in, first out. The highest band that
//! holds an order is served first.

use vstd::prelude::*;
use std::collections::VecDeque;

verus! {

/// The number of bands.
pub const BANDS: usize = 11;

/// The highest priority.
pub const TOP_PRIORITY: u8 = 10;

pub struct PriorityQueue {
    queues: Vec<VecDeque<String>>,
}

/// The band that an order of the given priority waits in: its priority,
/// or the top band where the priority is above it.
pub open spec fn band_of(priority: u8) -> int {
    if priority > TOP_PRIORITY {
        TOP_PRIORITY as int
    } else {
        priority as int
    }
}

/// The highest band below `upto` that holds an order; -1 where none does.
pub open spec fn highest_waiting(bands: Seq<Seq<String>>, upto: int) -> int
    decreases upto,
{
    if upto <= 0 {
        -1
    } else if bands[upto - 1].len() > 0 {
        upto - 1
    } else {
        highest_waiting(bands, upto - 1)
    }
}

/// The number of orders in the bands below `upto`.
pub open spec fn waiting(bands: Seq<Seq<String>>, upto: int) -> nat
    decreases upto,
{
    if upto <= 0 {
        0
    } else {
        waiting(bands, upto - 1) + bands[upto - 1].len()
    }
}

/// The bands after the order at the head of band `b` has left.
pub open spec fn served(bands: Seq<Seq<String>>, b: int) -> Seq<Seq<String>> {
    bands.update(b, bands[b].drop_first())
}

/// The band that `highest_waiting` names holds an order, and no band
/// above it does.
pub proof fn lemma_highest_waiting(bands: Seq<Seq<String>>, upto: int)
    requires
        0 <= upto <= bands.len(),
    ensures
        -1 <= highest_waiting(bands, upto) < upto,
        highest_waiting(bands, upto) >= 0 ==> bands[highest_waiting(bands, upto)].len() > 0,
        forall|i: int| highest_waiting(bands, upto) < i < upto ==> (#[trigger] bands[i]).len() == 0,
        highest_waiting(bands, upto) < 0 <==> waiting(bands, upto) == 0,
    decreases upto,
{
    if upto > 0 {
        lemma_highest_waiting(bands, upto - 1);
    }
}

/// Orders leave in the order of their priority, and within one priority in
/// the order in which they came: of two orders served one after the other,
/// the second is of no higher band than the first, and where both are of
/// one band the second is the one that stood right behind the first.
pub proof fn lemma_service_order(bands: Seq<Seq<String>>)
    requires
        bands.len() == BANDS,
        highest_waiting(bands, BANDS as int) >= 0,
        highest_waiting(served(bands, highest_waiting(bands, BANDS as int)), BANDS as int) >= 0,
    ensures
        ({
            let first = highest_waiting(bands, BANDS as int);
            let after = served(bands, first);
            let second = highest_waiting(after, BANDS as int);
            &&& second <= first
            &&& second == first ==> bands[first].len() >= 2 && after[second][0] == bands[first][1]
        }),
{
    let first = highest_waiting(bands, BANDS as int);
    let after = served(bands, first);
    let second = highest_waiting(after, BANDS as int);
    lemma_highest_waiting(bands, BANDS as int);
    lemma_highest_waiting(after, BANDS as int);
    if second > first {
        assert(bands[second].len() == 0);
        assert(after[second] == bands[second]);
    }
}

/// An order that joins a band is served after all that wait there: it
/// stands at the end of its band, and the others keep their places.
pub proof fn lemma_join_at_back(band: Seq<String>, id: String)
    ensures
        band.push(id).last() == id,
        forall|i: int| 0 <= i < band.len() ==> band.push(id)[i] == band[i],
{
}

impl PriorityQueue {
    /// The waiting orders by band, each band from head to tail.
    pub closed spec fn bands(self) -> Seq<Seq<String>> {
        Seq::new(self.queues@.len(), |i: int| self.queues@[i]@)
    }

    /// The queue has its eleven bands.
    pub closed spec fn wf(self) -> bool {
        self.queues@.len() == BANDS
    }

    /// A queue has eleven bands.
    pub proof fn lemma_bands(self)
        requires
            self.wf(),
        ensures
            self.bands().len() == BANDS,
    {
    }

    /// A queue without orders.
    pub fn new() -> (r: PriorityQueue)
        ensures
            r.wf(),
            r.bands().len() == BANDS,
            forall|i: int| 0 <= i < BANDS ==> (#[trigger] r.bands()[i]).len() == 0,
    {
        let mut queues: Vec<VecDeque<String>> = Vec::with_capacity(BANDS);
        let mut i: usize = 0;
        while i < BANDS
            invariant
                i <= BANDS,
                queues@.len() == i,
                forall|j: int| 0 <= j < i ==> (#[trigger] queues@[j])@.len() == 0,
            decreases BANDS - i,
        {
            queues.push(VecDeque::new());
            i += 1;
        }
        PriorityQueue { queues }
    }

    /// Puts the order at the end of the band of its priority.
    pub fn push(&mut self, order_id: String, priority: u8)
        requires
            old(self).wf(),
        ensures
            final(self).wf(),
            final(self).bands() == old(self).bands().update(
                band_of(priority),
                old(self).bands()[band_of(priority)].push(order_id),
            ),
    {
        let band: usize = if priority > TOP_PRIORITY {
            TOP_PRIORITY as usize
        } else {
            priority as usize
        };
        self.queues[band].push_back(order_id);
        proof {
            assert(self.bands() =~= old(self).bands().update(
                band_of(priority),
                old(self).bands()[band_of(priority)].push(order_id),
            ));
        }
    }

    /// Takes the order at the head of the highest band that holds one.
    pub fn pop(&mut self) -> (r: Option<String>)
        requires
            old(self).wf(),
        ensures
            final(self).wf(),
            final(self).bands().len() == BANDS,
            ({
                let b = highest_waiting(old(self).bands(), BANDS as int);
                if b < 0 {
                    r is None && final(self).bands() == old(self).bands()
                } else {
                    r == Some(old(self).bands()[b][0]) && final(self).bands() == served(
                        old(self).bands(),
                        b,
                    )
                }
            }),
    {
        let mut band: usize = BANDS;
        while band > 0
            invariant
                band <= BANDS,
                self.wf(),
                *self == *old(self),
                highest_waiting(self.bands(), BANDS as int) == highest_waiting(
                    self.bands(),
                    band as int,
                ),
            decreases band,
        {
            band -= 1;
            if self.queues[band].len() > 0 {
                let id = self.queues[band].pop_front();
                proof {
                    assert(old(self).bands()[band as int].drop_first() =~= self.queues@[band as int]@);
                    assert(self.bands() =~= served(old(self).bands(), band as int));
                }
                return id;
            }
        }
        None
    }

    /// No order waits.
    pub fn is_empty(&self) -> (r: bool)
        requires
            self.wf(),
        ensures
            r == (waiting(self.bands(), BANDS as int) == 0),
    {
        let mut band: usize = 0;
        while band < BANDS
            invariant
                band <= BANDS,
                self.wf(),
                waiting(self.bands(), band as int) == 0,
            decreases BANDS - band,
        {
            if self.queues[band].len() > 0 {
                proof {
                    lemma_waiting_grows(self.bands(), band as int + 1, BANDS as int);
                }
                return false;
            }
            band += 1;
        }
        true
    }

    /// The number of waiting orders; the largest number there is, where
    /// the count exceeds it.
    pub fn len(&self) -> (r: usize)
        requires
            self.wf(),
        ensures
            r == if waiting(self.bands(), BANDS as int) <= usize::MAX {
                waiting(self.bands(), BANDS as int)
            } else {
                usize::MAX as nat
            },
    {
        let mut total: usize = 0;
        let mut band: usize = 0;
        while band < BANDS
            invariant
                band <= BANDS,
                self.wf(),
                total == waiting(self.bands(), band as int),
            decreases BANDS - band,
        {
            let n = self.queues[band].len();
            if usize::MAX - total < n {
                proof {
                    lemma_waiting_grows(self.bands(), band as int + 1, BANDS as int);
                }
                return usize::MAX;
            }
            total = total + n;
            band += 1;
        }
        total
    }
}

/// Counting more bands never counts fewer orders.
pub proof fn lemma_waiting_grows(bands: Seq<Seq<String>>, lower: int, upper: int)
    requires
        lower <= upper,
    ensures
        waiting(bands, lower) <= waiting(bands, upper),
    decreases upper - lower,
{
    if lower < upper {
        lemma_waiting_grows(bands, lower, upper - 1);
    }
}

/// Once an order has left, fewer orders wait.
pub proof fn lemma_served_fewer(bands: Seq<Seq<String>>, b: int, upto: int)
    requires
        0 <= b < bands.len(),
        upto <= bands.len(),
        bands[b].len() > 0,
    ensures
        waiting(served(bands, b), upto) == if b < upto {
            waiting(bands, upto) - 1
        } else {
            waiting(bands, upto) as int
        },
    decreases upto,
{
    if upto > 0 {
        lemma_served_fewer(bands, b, upto - 1);
    }
}

} // verus!
