//! The arbitrage coordinator: pairs of a maker and a taker order, whose
//! joint state follows from the states of the two orders.

use vstd::prelude::*;
use vstd::string::*;
use crate::common::decimal::{
    checked_add, checked_mul, checked_sub, decimal_difference, decimal_product, decimal_sum,
    decimal_text, to_text, Decimal,
};
use crate::common::table::Table;
use crate::common::text::{digits_of, number_text, str_equal};
use crate::processor::order::order_state::OrderState;

verus! {

#[derive(Debug, Clone, Copy, PartialEq, Eq, Structural)]
pub enum ArbitrageState {
    Created,
    MakerPending,
    MakerFilled,
    TakerPending,
    BothPending,
    Completed,
    /// One order traded and the other did not: the position needs a hedge.
    PartialSuccess,
    Failed,
    Cancelled,
}

impl ArbitrageState {
    pub open spec fn is_terminal_spec(self) -> bool {
        self == ArbitrageState::Completed || self == ArbitrageState::PartialSuccess || self
            == ArbitrageState::Failed || self == ArbitrageState::Cancelled
    }

    /// The pair has come to an end.
    pub fn is_terminal(&self) -> (r: bool)
        ensures
            r == self.is_terminal_spec(),
    {
        matches!(
            self,
            ArbitrageState::Completed | ArbitrageState::PartialSuccess | ArbitrageState::Failed
                | ArbitrageState::Cancelled
        )
    }

    /// The pair has not come to an end.
    pub fn is_active(&self) -> (r: bool)
        ensures
            r == !self.is_terminal_spec(),
    {
        !self.is_terminal()
    }
}

/// A maker order and a taker order that belong together.
#[derive(Debug)]
pub struct ArbitragePair {
    pub id: String,
    pub maker_order_id: Option<String>,
    pub taker_order_id: Option<String>,
    pub symbol: String,
    pub quantity: Decimal,
    pub maker_price: Decimal,
    pub taker_price: Decimal,
    pub expected_profit: Decimal,
    pub actual_profit: Option<Decimal>,
    pub state: ArbitrageState,
    pub created_at: i64,
    pub completed_at: Option<i64>,
    pub maker_status: Option<OrderState>,
    pub taker_status: Option<OrderState>,
}

impl Clone for ArbitragePair {
    fn clone(&self) -> (r: Self)
        ensures
            r == *self,
    {
        ArbitragePair {
            id: self.id.clone(),
            maker_order_id: match &self.maker_order_id {
                Some(s) => Some(s.clone()),
                None => None,
            },
            taker_order_id: match &self.taker_order_id {
                Some(s) => Some(s.clone()),
                None => None,
            },
            symbol: self.symbol.clone(),
            quantity: self.quantity,
            maker_price: self.maker_price,
            taker_price: self.taker_price,
            expected_profit: self.expected_profit,
            actual_profit: self.actual_profit,
            state: self.state,
            created_at: self.created_at,
            completed_at: self.completed_at,
            maker_status: self.maker_status,
            taker_status: self.taker_status,
        }
    }
}

/// The counts and sums over all pairs. A count that has reached the
/// largest number stays there; a sum that would not fit stays as it is.
#[derive(Debug, Clone, Copy, PartialEq, Eq, Structural)]
pub struct ArbitrageStats {
    pub total_pairs: usize,
    pub active_pairs: usize,
    pub completed_pairs: usize,
    pub successful_pairs: usize,
    pub failed_pairs: usize,
    pub total_expected_profit: Decimal,
    pub total_actual_profit: Decimal,
}

/// The share of `part` in `whole`, in hundredths of a percent, rounded to
/// the nearest, and to the even one of two that are equally near; zero
/// where `whole` is zero.
pub open spec fn share_of(part: usize, whole: usize) -> int {
    if whole == 0 {
        0
    } else {
        let q = (part * 10_000) / (whole as int);
        let rest = (part * 10_000) % (whole as int);
        if 2 * rest > whole || (2 * rest == whole && q % 2 == 1) {
            q + 1
        } else {
            q
        }
    }
}

/// A number of hundredths as text, with two decimals. A whole part that
/// is beyond the largest number of 64 bits is written as that number.
pub open spec fn hundredths_text(n: int) -> Seq<char> {
    let whole = if n / 100 > u64::MAX {
        u64::MAX as nat
    } else {
        (n / 100) as nat
    };
    digits_of(whole) + "."@ + digits_of((n / 10 % 10) as nat) + digits_of((n % 10) as nat)
}

/// One line about the pairs: how many are active, how many of the
/// completed ones succeeded, and the profits.
pub open spec fn summary_text(stats: ArbitrageStats) -> Seq<char> {
    "Arbitrage Summary: Active="@ + digits_of(stats.active_pairs as nat) + ", Success="@ + digits_of(
        stats.successful_pairs as nat,
    ) + "/"@ + digits_of(stats.completed_pairs as nat) + ", Success Rate="@ + hundredths_text(
        share_of(stats.successful_pairs, stats.completed_pairs),
    ) + "%, Expected Profit="@ + decimal_text(stats.total_expected_profit) + ", Actual Profit="@
        + decimal_text(stats.total_actual_profit)
}

/// The share of `part` in `whole`, in hundredths of a percent.
pub fn share(part: usize, whole: usize) -> (r: u128)
    ensures
        r == share_of(part, whole),
{
    if whole == 0 {
        return 0;
    }
    let scaled: u128 = part as u128 * 10_000;
    let q: u128 = scaled / (whole as u128);
    let rest: u128 = scaled % (whole as u128);
    if 2 * rest > whole as u128 || (2 * rest == whole as u128 && q % 2 == 1) {
        q + 1
    } else {
        q
    }
}

/// A number of hundredths as text, with two decimals.
pub fn hundredths(n: u128) -> (r: String)
    ensures
        r@ == hundredths_text(n as int),
{
    let whole: u128 = n / 100;
    let shown: u64 = if whole > u64::MAX as u128 {
        u64::MAX
    } else {
        whole as u64
    };
    let mut s = number_text(shown);
    s.append(".");
    s.append(number_text((n / 10 % 10) as u64).as_str());
    s.append(number_text((n % 10) as u64).as_str());
    s
}

/// The order traded in full.
pub open spec fn leg_filled(status: Option<OrderState>) -> bool {
    status == Some(OrderState::Filled)
}

/// The order ended without trading in full.
pub open spec fn leg_failed(status: Option<OrderState>) -> bool {
    status == Some(OrderState::Cancelled) || status == Some(OrderState::Rejected) || status == Some(
        OrderState::Failed,
    )
}

/// The state that the states of the two orders decide, where they decide
/// one.
pub open spec fn decided_state(maker: Option<OrderState>, taker: Option<OrderState>) -> Option<
    ArbitrageState,
> {
    if leg_filled(maker) && leg_filled(taker) {
        Some(ArbitrageState::Completed)
    } else if leg_filled(maker) && leg_failed(taker) {
        Some(ArbitrageState::PartialSuccess)
    } else if leg_filled(taker) && leg_failed(maker) {
        Some(ArbitrageState::PartialSuccess)
    } else if leg_failed(maker) && leg_failed(taker) {
        Some(ArbitrageState::Failed)
    } else if leg_filled(maker) {
        Some(ArbitrageState::MakerFilled)
    } else {
        None
    }
}

/// The state of a pair, given the states of its two orders: the decided
/// state, or the state that the pair is in where the orders decide none.
pub open spec fn joint_state(
    maker: Option<OrderState>,
    taker: Option<OrderState>,
    current: ArbitrageState,
) -> ArbitrageState {
    match decided_state(maker, taker) {
        Some(s) => s,
        None => current,
    }
}

/// Where the states of the two orders decide, the state of the pair
/// depends on nothing else: whatever state it was in before, it ends in
/// the same one.
pub proof fn lemma_joint_state_has_no_memory(
    maker: Option<OrderState>,
    taker: Option<OrderState>,
    before_a: ArbitrageState,
    before_b: ArbitrageState,
)
    requires
        decided_state(maker, taker) is Some,
    ensures
        joint_state(maker, taker, before_a) == joint_state(maker, taker, before_b),
{
}

/// Settling a pair twice on the same states changes nothing the second
/// time.
pub proof fn lemma_joint_state_idempotent(
    maker: Option<OrderState>,
    taker: Option<OrderState>,
    current: ArbitrageState,
)
    ensures
        joint_state(maker, taker, joint_state(maker, taker, current)) == joint_state(
            maker,
            taker,
            current,
        ),
{
}

/// The share of the expected profit that is booked as the actual one:
/// 0.95, the rest being held back for slippage and fees.
pub open spec fn profit_share() -> Decimal {
    Decimal { mantissa: 95, scale: 2 }
}

/// `n + 1`, or `n` where that is the largest number.
pub open spec fn bump_spec(n: usize) -> usize {
    if n < usize::MAX {
        (n + 1) as usize
    } else {
        n
    }
}

/// `n - 1`, or zero.
pub open spec fn drop_spec(n: usize) -> usize {
    if n > 0 {
        (n - 1) as usize
    } else {
        n
    }
}

/// `total + x`, or `total` where the sum does not fit.
pub open spec fn grown(total: Decimal, x: Decimal) -> Decimal {
    match decimal_sum(total, x) {
        Some(s) => s,
        None => total,
    }
}

pub fn bump(n: usize) -> (r: usize)
    ensures
        r == bump_spec(n),
{
    if n < usize::MAX {
        n + 1
    } else {
        n
    }
}

pub fn drop_one(n: usize) -> (r: usize)
    ensures
        r == drop_spec(n),
{
    if n > 0 {
        n - 1
    } else {
        n
    }
}

pub fn grow(total: Decimal, x: Decimal) -> (r: Decimal)
    requires
        total.wf(),
        x.wf(),
    ensures
        r == grown(total, x),
        r.wf(),
{
    match checked_add(total, x) {
        Some(s) => s,
        None => total,
    }
}

impl ArbitragePair {
    /// The figures are within the limits of their representation.
    pub open spec fn wf(self) -> bool {
        &&& self.quantity.wf()
        &&& self.maker_price.wf()
        &&& self.taker_price.wf()
        &&& self.expected_profit.wf()
        &&& (self.actual_profit matches Some(p) ==> p.wf())
    }

    /// The pair after its state was settled at `now` on the states of its
    /// orders: a pair that comes to an end is stamped, and one that
    /// completes gets its actual profit, where that can be computed.
    pub open spec fn settled(self, now: i64) -> ArbitragePair {
        match decided_state(self.maker_status, self.taker_status) {
            Some(ArbitrageState::Completed) => ArbitragePair {
                state: ArbitrageState::Completed,
                completed_at: Some(now),
                actual_profit: decimal_product(self.expected_profit, profit_share()),
                ..self
            },
            Some(ArbitrageState::MakerFilled) => ArbitragePair {
                state: ArbitrageState::MakerFilled,
                ..self
            },
            Some(s) => ArbitragePair { state: s, completed_at: Some(now), ..self },
            None => self,
        }
    }

    /// Settles the state of the pair on the states of its orders.
    fn settle(&mut self, now: i64)
        requires
            old(self).wf(),
        ensures
            final(self).wf(),
            *final(self) == old(self).settled(now),
            final(self).state == joint_state(
                old(self).maker_status,
                old(self).taker_status,
                old(self).state,
            ),
    {
        let maker_filled = matches!(self.maker_status, Some(OrderState::Filled));
        let taker_filled = matches!(self.taker_status, Some(OrderState::Filled));
        let maker_failed = matches!(
            self.maker_status,
            Some(OrderState::Cancelled) | Some(OrderState::Rejected) | Some(OrderState::Failed)
        );
        let taker_failed = matches!(
            self.taker_status,
            Some(OrderState::Cancelled) | Some(OrderState::Rejected) | Some(OrderState::Failed)
        );
        if maker_filled && taker_filled {
            self.completed_at = Some(now);
            self.actual_profit = checked_mul(self.expected_profit, Decimal { mantissa: 95, scale: 2 });
            self.state = ArbitrageState::Completed;
        } else if (maker_filled && taker_failed) || (taker_filled && maker_failed) {
            self.completed_at = Some(now);
            self.state = ArbitrageState::PartialSuccess;
        } else if maker_failed && taker_failed {
            self.completed_at = Some(now);
            self.state = ArbitrageState::Failed;
        } else if maker_filled {
            self.state = ArbitrageState::MakerFilled;
        }
    }
}

/// The expected profit of a pair: the difference of the two prices, times
/// the quantity; none where it cannot be computed.
pub open spec fn expected_profit_spec(quantity: Decimal, maker_price: Decimal, taker_price: Decimal) -> Option<
    Decimal,
> {
    match decimal_difference(taker_price, maker_price) {
        Some(d) => decimal_product(d, quantity),
        None => None,
    }
}

/// The whole of the statistics after a pair went from `before` to
/// `after`.
pub open spec fn stats_after(stats: ArbitrageStats, before: ArbitragePair, after: ArbitragePair) -> ArbitrageStats {
    if before.state != after.state && after.state.is_terminal_spec() {
        ArbitrageStats {
            active_pairs: drop_spec(stats.active_pairs),
            completed_pairs: bump_spec(stats.completed_pairs),
            successful_pairs: if after.state == ArbitrageState::Completed {
                bump_spec(stats.successful_pairs)
            } else {
                stats.successful_pairs
            },
            failed_pairs: if after.state == ArbitrageState::Failed {
                bump_spec(stats.failed_pairs)
            } else {
                stats.failed_pairs
            },
            total_actual_profit: match (after.state, after.actual_profit) {
                (ArbitrageState::Completed, Some(p)) => grown(stats.total_actual_profit, p),
                _ => stats.total_actual_profit,
            },
            ..stats
        }
    } else {
        stats
    }
}

/// Which pairs a listing asks for.
#[derive(Debug, Clone, Copy, PartialEq, Eq, Structural)]
pub enum PairFilter {
    /// The pairs of which one order traded and the other did not.
    HedgeRequired,
    /// The pairs that have not come to an end.
    Active,
}

impl PairFilter {
    pub open spec fn admits(self, pair: ArbitragePair) -> bool {
        match self {
            PairFilter::HedgeRequired => pair.state == ArbitrageState::PartialSuccess,
            PairFilter::Active => !pair.state.is_terminal_spec(),
        }
    }
}

/// Those of the pairs that the filter admits, in their order.
pub open spec fn admitted(pairs: Seq<ArbitragePair>, filter: PairFilter) -> Seq<ArbitragePair>
    decreases pairs.len(),
{
    if pairs.len() == 0 {
        Seq::empty()
    } else if filter.admits(pairs.last()) {
        admitted(pairs.drop_last(), filter).push(pairs.last())
    } else {
        admitted(pairs.drop_last(), filter)
    }
}

/// The pairs behind a list of references.
pub open spec fn pointees(refs: Seq<&ArbitragePair>) -> Seq<ArbitragePair> {
    Seq::new(refs.len(), |i: int| *refs[i])
}

/// A pair is too old to keep: it has come to an end, at a time that lies
/// more than `keep_hours` before `now`.
pub open spec fn expired_pair(pair: ArbitragePair, keep_hours: i64, now: i64) -> bool {
    pair.state.is_terminal_spec() && (pair.completed_at matches Some(t) && t < now - keep_hours
        * 3_600_000)
}

/// The pairs, the orders that belong to them, and the statistics.
pub struct ArbitrageManager {
    pub pairs: Table<ArbitragePair>,
    /// The id of the pair of an order, under the id of the order.
    pub order_to_arbitrage: Table<String>,
    pub stats: ArbitrageStats,
}

impl ArbitrageManager {
    /// The tables are well-formed, and so is every pair and every sum.
    pub open spec fn wf(self) -> bool {
        &&& self.pairs.wf()
        &&& self.order_to_arbitrage.wf()
        &&& self.stats.total_expected_profit.wf()
        &&& self.stats.total_actual_profit.wf()
        &&& forall|i: int| 0 <= i < self.pairs.values@.len() ==> (#[trigger] self.pairs.values@[i]).wf()
    }

    /// The pair with the given id.
    #[verifier::inline]
    pub open spec fn pair(self, id: Seq<char>) -> Option<ArbitragePair> {
        self.pairs.get(id)
    }

    /// A manager without pairs.
    pub fn new() -> (r: ArbitrageManager)
        ensures
            r.wf(),
            forall|k: Seq<char>| #[trigger] r.pair(k) is None,
            r.stats == (ArbitrageStats {
                total_pairs: 0,
                active_pairs: 0,
                completed_pairs: 0,
                successful_pairs: 0,
                failed_pairs: 0,
                total_expected_profit: Decimal::zero_spec(),
                total_actual_profit: Decimal::zero_spec(),
            }),
    {
        ArbitrageManager {
            pairs: Table::new(),
            order_to_arbitrage: Table::new(),
            stats: ArbitrageStats {
                total_pairs: 0,
                active_pairs: 0,
                completed_pairs: 0,
                successful_pairs: 0,
                failed_pairs: 0,
                total_expected_profit: Decimal::zero(),
                total_actual_profit: Decimal::zero(),
            },
        }
    }

    /// Creates a pair without orders, in `Created`, and returns a copy of
    /// it. There is no pair where the expected profit cannot be computed;
    /// the manager is then as it was.
    pub fn create_pair(
        &mut self,
        id: String,
        symbol: String,
        quantity: Decimal,
        maker_price: Decimal,
        taker_price: Decimal,
        now: i64,
    ) -> (r: Option<ArbitragePair>)
        requires
            old(self).wf(),
            quantity.wf(),
            maker_price.wf(),
            taker_price.wf(),
        ensures
            final(self).wf(),
            match expected_profit_spec(quantity, maker_price, taker_price) {
                None => r is None && *final(self) == *old(self),
                Some(expected_profit) => {
                    let pair = ArbitragePair {
                        id,
                        maker_order_id: None,
                        taker_order_id: None,
                        symbol,
                        quantity,
                        maker_price,
                        taker_price,
                        expected_profit,
                        actual_profit: None,
                        state: ArbitrageState::Created,
                        created_at: now,
                        completed_at: None,
                        maker_status: None,
                        taker_status: None,
                    };
                    &&& r == Some(pair)
                    &&& final(self).pair(id@) == Some(pair)
                    &&& forall|k: Seq<char>|
                        k != id@ ==> #[trigger] final(self).pair(k) == old(self).pair(k)
                    &&& final(self).order_to_arbitrage == old(self).order_to_arbitrage
                    &&& final(self).stats == (ArbitrageStats {
                        total_pairs: bump_spec(old(self).stats.total_pairs),
                        active_pairs: bump_spec(old(self).stats.active_pairs),
                        total_expected_profit: grown(
                            old(self).stats.total_expected_profit,
                            expected_profit,
                        ),
                        ..old(self).stats
                    })
                },
            },
    {
        let spread = match checked_sub(taker_price, maker_price) {
            Some(d) => d,
            None => {
                return None;
            },
        };
        let expected_profit = match checked_mul(spread, quantity) {
            Some(p) => p,
            None => {
                return None;
            },
        };
        let pair = ArbitragePair {
            id: id.clone(),
            maker_order_id: None,
            taker_order_id: None,
            symbol,
            quantity,
            maker_price,
            taker_price,
            expected_profit,
            actual_profit: None,
            state: ArbitrageState::Created,
            created_at: now,
            completed_at: None,
            maker_status: None,
            taker_status: None,
        };
        let copy = pair.clone();
        self.store(id, pair);
        self.stats.total_pairs = bump(self.stats.total_pairs);
        self.stats.active_pairs = bump(self.stats.active_pairs);
        self.stats.total_expected_profit = grow(self.stats.total_expected_profit, expected_profit);
        Some(copy)
    }

    /// Puts a pair under its id.
    fn store(&mut self, id: String, pair: ArbitragePair)
        requires
            old(self).wf(),
            pair.wf(),
        ensures
            final(self).wf(),
            final(self).pair(id@) == Some(pair),
            forall|k: Seq<char>| k != id@ ==> #[trigger] final(self).pair(k) == old(self).pair(k),
            final(self).order_to_arbitrage == old(self).order_to_arbitrage,
            final(self).stats == old(self).stats,
    {
        self.pairs.upsert(id, pair);
        proof {
            assert forall|i: int| 0 <= i < self.pairs.values@.len() implies (
            #[trigger] self.pairs.values@[i]).wf() by {
                self.pairs.lemma_entry(i);
                let k = self.pairs.keys@[i]@;
                if k != id@ {
                    old(self).pairs.lemma_slot(k);
                }
            }
        }
    }

    /// Enters an order into a pair: as the maker where the pair has none,
    /// else as the taker where it has none; a pair with both orders stays
    /// as it is. The order is remembered as belonging to the pair either
    /// way.
    pub fn add_order(&mut self, arbitrage_id: String, order_id: String)
        requires
            old(self).wf(),
        ensures
            final(self).wf(),
            final(self).order_to_arbitrage.get(order_id@) == Some(arbitrage_id),
            forall|k: Seq<char>|
                k != order_id@ ==> #[trigger] final(self).order_to_arbitrage.get(k) == old(self).order_to_arbitrage.get(k),
            forall|k: Seq<char>|
                k != arbitrage_id@ ==> #[trigger] final(self).pair(k) == old(self).pair(k),
            final(self).stats == old(self).stats,
            final(self).pair(arbitrage_id@) == (match old(self).pair(arbitrage_id@) {
                None => None,
                Some(p) => Some(
                    if p.maker_order_id is None {
                        ArbitragePair {
                            maker_order_id: Some(order_id),
                            state: ArbitrageState::MakerPending,
                            ..p
                        }
                    } else if p.taker_order_id is None {
                        ArbitragePair {
                            taker_order_id: Some(order_id),
                            state: if p.state == ArbitrageState::MakerPending {
                                ArbitrageState::BothPending
                            } else {
                                ArbitrageState::TakerPending
                            },
                            ..p
                        }
                    } else {
                        p
                    },
                ),
            }),
    {
        self.order_to_arbitrage.upsert(order_id.clone(), arbitrage_id.clone());
        match self.pairs.find(arbitrage_id.as_str()) {
            Some(i) => {
                if self.pairs.values[i].maker_order_id.is_none() {
                    self.pairs.values[i].maker_order_id = Some(order_id);
                    self.pairs.values[i].state = ArbitrageState::MakerPending;
                } else if self.pairs.values[i].taker_order_id.is_none() {
                    self.pairs.values[i].taker_order_id = Some(order_id);
                    if self.pairs.values[i].state == ArbitrageState::MakerPending {
                        self.pairs.values[i].state = ArbitrageState::BothPending;
                    } else {
                        self.pairs.values[i].state = ArbitrageState::TakerPending;
                    }
                }
                proof {
                    old(self).pairs.lemma_edited(self.pairs, i as int);
                    assert forall|j: int| 0 <= j < self.pairs.values@.len() implies (
                    #[trigger] self.pairs.values@[j]).wf() by {
                        if j != i {
                            assert(self.pairs.values@[j] == old(self).pairs.values@[j]);
                        } else {
                            assert(old(self).pairs.values@[i as int].wf());
                        }
                    }
                }
            },
            None => {},
        }
    }

    /// Records the new state of an order of a pair, settles the state of
    /// the pair on the states of its two orders, and keeps the statistics.
    /// An order that is not of the pair changes no order state; the pair
    /// is settled all the same. An unknown pair changes nothing.
    pub fn update_order_status(&mut self, arbitrage_id: &str, order_id: &str, new_status: OrderState, now: i64)
        requires
            old(self).wf(),
        ensures
            final(self).wf(),
            status_noted(*old(self), *final(self), arbitrage_id@, order_id@, new_status, now),
    {
        let i = match self.pairs.find(arbitrage_id) {
            Some(i) => i,
            None => {
                return ;
            },
        };
        let before_state = self.pairs.values[i].state;
        let is_maker = match &self.pairs.values[i].maker_order_id {
            Some(m) => str_equal(m.as_str(), order_id),
            None => false,
        };
        let is_taker = match &self.pairs.values[i].taker_order_id {
            Some(t) => str_equal(t.as_str(), order_id),
            None => false,
        };
        proof {
            assert(old(self).pairs.values@[i as int].wf());
        }
        if is_maker {
            self.pairs.values[i].maker_status = Some(new_status);
        } else if is_taker {
            self.pairs.values[i].taker_status = Some(new_status);
        }
        self.pairs.values[i].settle(now);
        let after_state = self.pairs.values[i].state;
        let profit = self.pairs.values[i].actual_profit;
        proof {
            old(self).pairs.lemma_edited(self.pairs, i as int);
            assert forall|j: int| 0 <= j < self.pairs.values@.len() implies (
            #[trigger] self.pairs.values@[j]).wf() by {
                if j != i {
                    assert(self.pairs.values@[j] == old(self).pairs.values@[j]);
                }
            }
        }
        if before_state != after_state && after_state.is_terminal() {
            self.stats.active_pairs = drop_one(self.stats.active_pairs);
            self.stats.completed_pairs = bump(self.stats.completed_pairs);
            match after_state {
                ArbitrageState::Completed => {
                    self.stats.successful_pairs = bump(self.stats.successful_pairs);
                    match profit {
                        Some(p) => {
                            self.stats.total_actual_profit = grow(self.stats.total_actual_profit, p);
                        },
                        None => {},
                    }
                },
                ArbitrageState::Failed => {
                    self.stats.failed_pairs = bump(self.stats.failed_pairs);
                },
                _ => {},
            }
        }
    }

    /// The pairs that need a hedge: those of which one order traded and
    /// the other did not.
    pub fn get_hedge_required_pairs(&self) -> (r: Vec<&ArbitragePair>)
        requires
            self.wf(),
        ensures
            pointees(r@) == admitted(self.pairs.values@, PairFilter::HedgeRequired),
    {
        self.list(PairFilter::HedgeRequired)
    }

    /// The pairs that have not come to an end.
    pub fn get_active_pairs(&self) -> (r: Vec<&ArbitragePair>)
        requires
            self.wf(),
        ensures
            pointees(r@) == admitted(self.pairs.values@, PairFilter::Active),
    {
        self.list(PairFilter::Active)
    }

    /// The pairs that the filter admits, in the order of their creation.
    fn list(&self, filter: PairFilter) -> (r: Vec<&ArbitragePair>)
        requires
            self.wf(),
        ensures
            pointees(r@) == admitted(self.pairs.values@, filter),
    {
        let mut out: Vec<&ArbitragePair> = Vec::new();
        let mut i: usize = 0;
        proof {
            assert(pointees(out@) =~= admitted(self.pairs.values@.subrange(0, 0), filter));
        }
        while i < self.pairs.values.len()
            invariant
                i <= self.pairs.values@.len(),
                pointees(out@) == admitted(self.pairs.values@.subrange(0, i as int), filter),
            decreases self.pairs.values@.len() - i,
        {
            let ghost before = out@;
            proof {
                assert(self.pairs.values@.subrange(0, i + 1).drop_last() =~= self.pairs.values@.subrange(
                    0,
                    i as int,
                ));
            }
            let pair = &self.pairs.values[i];
            let wanted = match filter {
                PairFilter::HedgeRequired => pair.state == ArbitrageState::PartialSuccess,
                PairFilter::Active => pair.state.is_active(),
            };
            if wanted {
                out.push(pair);
                proof {
                    assert(pointees(out@) =~= pointees(before).push(*pair));
                }
            }
            i += 1;
        }
        proof {
            assert(self.pairs.values@.subrange(0, self.pairs.values@.len() as int) =~= self.pairs.values@);
        }
        out
    }

    /// The pair with the given id.
    pub fn get_pair(&self, arbitrage_id: &str) -> (r: Option<&ArbitragePair>)
        requires
            self.wf(),
        ensures
            match r {
                Some(p) => self.pair(arbitrage_id@) == Some(*p),
                None => self.pair(arbitrage_id@) is None,
            },
    {
        self.pairs.lookup(arbitrage_id)
    }

    /// The pair that the order belongs to.
    pub fn get_pair_by_order(&self, order_id: &str) -> (r: Option<&ArbitragePair>)
        requires
            self.wf(),
        ensures
            match self.order_to_arbitrage.get(order_id@) {
                Some(id) => match r {
                    Some(p) => self.pair(id@) == Some(*p),
                    None => self.pair(id@) is None,
                },
                None => r is None,
            },
    {
        match self.order_to_arbitrage.lookup(order_id) {
            Some(id) => self.pairs.lookup(id.as_str()),
            None => None,
        }
    }

    /// Cancels a pair that has not come to an end; any other pair stays as
    /// it is.
    pub fn cancel_pair(&mut self, arbitrage_id: &str, now: i64)
        requires
            old(self).wf(),
        ensures
            final(self).wf(),
            final(self).order_to_arbitrage == old(self).order_to_arbitrage,
            forall|k: Seq<char>|
                k != arbitrage_id@ ==> #[trigger] final(self).pair(k) == old(self).pair(k),
            match old(self).pair(arbitrage_id@) {
                Some(p) => if p.state.is_terminal_spec() {
                    *final(self) == *old(self)
                } else {
                    &&& final(self).pair(arbitrage_id@) == Some(
                        ArbitragePair {
                            state: ArbitrageState::Cancelled,
                            completed_at: Some(now),
                            ..p
                        },
                    )
                    &&& final(self).stats == (ArbitrageStats {
                        active_pairs: drop_spec(old(self).stats.active_pairs),
                        ..old(self).stats
                    })
                },
                None => *final(self) == *old(self),
            },
    {
        match self.pairs.find(arbitrage_id) {
            Some(i) => {
                if !self.pairs.values[i].state.is_terminal() {
                    self.pairs.values[i].state = ArbitrageState::Cancelled;
                    self.pairs.values[i].completed_at = Some(now);
                    self.stats.active_pairs = drop_one(self.stats.active_pairs);
                    proof {
                        old(self).pairs.lemma_edited(self.pairs, i as int);
                        assert forall|j: int| 0 <= j < self.pairs.values@.len() implies (
                        #[trigger] self.pairs.values@[j]).wf() by {
                            if j != i {
                                assert(self.pairs.values@[j] == old(self).pairs.values@[j]);
                            } else {
                                assert(old(self).pairs.values@[i as int].wf());
                            }
                        }
                    }
                }
            },
            None => {},
        }
    }

    /// One line about the pairs.
    pub fn get_summary(&self) -> (r: String)
        requires
            self.wf(),
        ensures
            r@ == summary_text(self.stats),
    {
        let mut s = String::from_str("Arbitrage Summary: Active=");
        s.append(number_text(self.stats.active_pairs as u64).as_str());
        s.append(", Success=");
        s.append(number_text(self.stats.successful_pairs as u64).as_str());
        s.append("/");
        s.append(number_text(self.stats.completed_pairs as u64).as_str());
        s.append(", Success Rate=");
        s.append(hundredths(share(self.stats.successful_pairs, self.stats.completed_pairs)).as_str());
        s.append("%, Expected Profit=");
        s.append(to_text(self.stats.total_expected_profit).as_str());
        s.append(", Actual Profit=");
        s.append(to_text(self.stats.total_actual_profit).as_str());
        s
    }

    /// The statistics.
    pub fn get_stats(&self) -> (r: ArbitrageStats)
        ensures
            r == self.stats,
    {
        self.stats
    }

    /// Removes the pairs that came to an end more than `keep_hours` ago,
    /// and forgets which orders belonged to them. The pairs that stay keep
    /// their order.
    pub fn cleanup_completed_pairs(&mut self, keep_hours: i64, now: i64)
        requires
            old(self).wf(),
        ensures
            final(self).wf(),
            final(self).stats == old(self).stats,
            forall|k: Seq<char>|
                #[trigger] final(self).pair(k) == (match old(self).pair(k) {
                    Some(p) => if expired_pair(p, keep_hours, now) {
                        None
                    } else {
                        Some(p)
                    },
                    None => None,
                }),
    {
        let mut i: usize = 0;
        while i < self.pairs.values.len()
            invariant
                self.wf(),
                self.stats == old(self).stats,
                i <= self.pairs.values@.len(),
                forall|j: int| 0 <= j < i ==> !expired_pair(#[trigger] self.pairs.values@[j], keep_hours, now),
                forall|k: Seq<char>|
                    #[trigger] self.pair(k) == (match old(self).pair(k) {
                        Some(p) => if expired_pair(p, keep_hours, now) && !(self.pair(k) is Some) {
                            None
                        } else {
                            Some(p)
                        },
                        None => None,
                    }),
            decreases self.pairs.values@.len() - i,
        {
            let pair = &self.pairs.values[i];
            let too_old = pair.state.is_terminal() && match pair.completed_at {
                Some(t) => before_cutoff(t, keep_hours, now),
                None => false,
            };
            if too_old {
                let ghost snapshot = *self;
                proof {
                    snapshot.pairs.lemma_entry(i as int);
                }
                let (_, removed) = self.pairs.remove_at(i);
                match &removed.maker_order_id {
                    Some(m) => {
                        self.order_to_arbitrage.remove(m.as_str());
                    },
                    None => {},
                }
                match &removed.taker_order_id {
                    Some(t) => {
                        self.order_to_arbitrage.remove(t.as_str());
                    },
                    None => {},
                }
                proof {
                    assert forall|j: int| 0 <= j < self.pairs.values@.len() implies (
                    #[trigger] self.pairs.values@[j]).wf() by {
                        if j < i {
                            assert(self.pairs.values@[j] == snapshot.pairs.values@[j]);
                        } else {
                            assert(self.pairs.values@[j] == snapshot.pairs.values@[j + 1]);
                        }
                    }
                    assert forall|j: int| 0 <= j < i implies !expired_pair(
                        #[trigger] self.pairs.values@[j],
                        keep_hours,
                        now,
                    ) by {
                        assert(self.pairs.values@[j] == snapshot.pairs.values@[j]);
                    }
                }
            } else {
                i += 1;
            }
        }
        proof {
            assert forall|k: Seq<char>|
                #[trigger] self.pair(k) == (match old(self).pair(k) {
                    Some(p) => if expired_pair(p, keep_hours, now) {
                        None
                    } else {
                        Some(p)
                    },
                    None => None,
                }) by {
                if self.pair(k) is Some {
                    self.pairs.lemma_slot(k);
                    let j = self.pairs.slot(k);
                    assert(!expired_pair(self.pairs.values@[j], keep_hours, now));
                }
            }
        }
    }
}

/// What noting the new state of an order does to the manager.
pub open spec fn status_noted(
    before: ArbitrageManager,
    after: ArbitrageManager,
    arbitrage_id: Seq<char>,
    order_id: Seq<char>,
    status: OrderState,
    now: i64,
) -> bool {
    &&& after.order_to_arbitrage == before.order_to_arbitrage
    &&& forall|k: Seq<char>| k != arbitrage_id ==> #[trigger] after.pairs.get(k) == before.pairs.get(k)
    &&& match before.pair(arbitrage_id) {
        None => after == before,
        Some(p) => {
            let noted = noted_status(p, order_id, status);
            &&& after.pair(arbitrage_id) == Some(noted.settled(now))
            &&& after.pair(arbitrage_id)->0.state == joint_state(
                noted.maker_status,
                noted.taker_status,
                p.state,
            )
            &&& after.stats == stats_after(before.stats, p, noted.settled(now))
        },
    }
}

/// The pair after the new state of one of its orders was noted: of the
/// maker where the order is the maker, else of the taker where it is the
/// taker.
pub open spec fn noted_status(p: ArbitragePair, order_id: Seq<char>, status: OrderState) -> ArbitragePair {
    if p.maker_order_id matches Some(m) && m@ == order_id {
        ArbitragePair { maker_status: Some(status), ..p }
    } else if p.taker_order_id matches Some(t) && t@ == order_id {
        ArbitragePair { taker_status: Some(status), ..p }
    } else {
        p
    }
}

/// Whether the time `t` lies more than `keep_hours` before `now`.
pub fn before_cutoff(t: i64, keep_hours: i64, now: i64) -> (r: bool)
    ensures
        r == (t < now - keep_hours * 3_600_000),
{
    let t_wide: i128 = t as i128;
    let cutoff: i128 = (now as i128) - (keep_hours as i128) * 3_600_000;
    t_wide < cutoff
}

} // verus!
