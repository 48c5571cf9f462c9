//! The state machine of an order.
//!
//! An order starts in `Created` and moves only along the edges of
//! [`edge`]; every accepted move is recorded, and a rejected one leaves
//! machine and record untouched.

use vstd::prelude::*;
use crate::common::decimal::Decimal;
use crate::common::table::Table;

verus! {

#[derive(Debug, Clone, Copy, PartialEq, Eq, Structural)]
pub enum OrderState {
    Created,
    /// Passed risk control.
    Validated,
    Submitting,
    /// Handed to the exchange.
    Submitted,
    /// Confirmed by the exchange.
    Acknowledged,
    PartiallyFilled,
    Filled,
    Cancelled,
    Rejected,
    Expired,
    /// Stopped by an error of the system itself.
    Failed,
}

impl OrderState {
    pub open spec fn is_terminal_spec(self) -> bool {
        self == OrderState::Filled || self == OrderState::Cancelled || self == OrderState::Rejected
            || self == OrderState::Expired || self == OrderState::Failed
    }

    pub open spec fn is_active_spec(self) -> bool {
        self == OrderState::Submitting || self == OrderState::Submitted || self
            == OrderState::Acknowledged || self == OrderState::PartiallyFilled
    }

    pub open spec fn can_cancel_spec(self) -> bool {
        self == OrderState::Created || self == OrderState::Validated || self.is_active_spec()
    }

    pub open spec fn can_retry_spec(self) -> bool {
        self == OrderState::Rejected || self == OrderState::Failed
    }

    /// No move leaves this state.
    pub fn is_terminal(&self) -> (r: bool)
        ensures
            r == self.is_terminal_spec(),
    {
        matches!(
            self,
            OrderState::Filled | OrderState::Cancelled | OrderState::Rejected | OrderState::Expired
                | OrderState::Failed
        )
    }

    /// The order is with the exchange.
    pub fn is_active(&self) -> (r: bool)
        ensures
            r == self.is_active_spec(),
    {
        matches!(
            self,
            OrderState::Submitting | OrderState::Submitted | OrderState::Acknowledged
                | OrderState::PartiallyFilled
        )
    }

    /// The order can still be cancelled.
    pub fn can_cancel(&self) -> (r: bool)
        ensures
            r == self.can_cancel_spec(),
            r == !self.is_terminal_spec(),
    {
        matches!(
            self,
            OrderState::Created | OrderState::Validated | OrderState::Submitting
                | OrderState::Submitted | OrderState::Acknowledged | OrderState::PartiallyFilled
        )
    }

    /// The order ended in a way that a new attempt may mend.
    pub fn can_retry(&self) -> (r: bool)
        ensures
            r == self.can_retry_spec(),
    {
        matches!(self, OrderState::Rejected | OrderState::Failed)
    }

    /// The name of the state.
    pub open spec fn name_spec(self) -> &'static str {
        match self {
            OrderState::Created => "Created",
            OrderState::Validated => "Validated",
            OrderState::Submitting => "Submitting",
            OrderState::Submitted => "Submitted",
            OrderState::Acknowledged => "Acknowledged",
            OrderState::PartiallyFilled => "PartiallyFilled",
            OrderState::Filled => "Filled",
            OrderState::Cancelled => "Cancelled",
            OrderState::Rejected => "Rejected",
            OrderState::Expired => "Expired",
            OrderState::Failed => "Failed",
        }
    }

    /// The name of the state.
    pub fn name(&self) -> (r: &'static str)
        ensures
            r == self.name_spec(),
    {
        match self {
            OrderState::Created => "Created",
            OrderState::Validated => "Validated",
            OrderState::Submitting => "Submitting",
            OrderState::Submitted => "Submitted",
            OrderState::Acknowledged => "Acknowledged",
            OrderState::PartiallyFilled => "PartiallyFilled",
            OrderState::Filled => "Filled",
            OrderState::Cancelled => "Cancelled",
            OrderState::Rejected => "Rejected",
            OrderState::Expired => "Expired",
            OrderState::Failed => "Failed",
        }
    }
}

/// What can happen to an order.
#[derive(Debug)]
pub enum StateTransitionEvent {
    Validate,
    Submit,
    /// The exchange took the order and named it.
    SubmitSuccess(String),
    /// The order did not reach the exchange; the reason.
    SubmitFailed(String),
    Acknowledge,
    /// The exchange refused the order; the reason.
    Reject(String),
    /// Part of the order traded: quantity, then price.
    PartialFill(Decimal, Decimal),
    Fill,
    Cancel,
    Expire,
    /// The system itself failed; the reason.
    SystemError(String),
}

impl Clone for StateTransitionEvent {
    fn clone(&self) -> (r: Self)
        ensures
            r == *self,
    {
        match self {
            StateTransitionEvent::Validate => StateTransitionEvent::Validate,
            StateTransitionEvent::Submit => StateTransitionEvent::Submit,
            StateTransitionEvent::SubmitSuccess(s) => StateTransitionEvent::SubmitSuccess(s.clone()),
            StateTransitionEvent::SubmitFailed(s) => StateTransitionEvent::SubmitFailed(s.clone()),
            StateTransitionEvent::Acknowledge => StateTransitionEvent::Acknowledge,
            StateTransitionEvent::Reject(s) => StateTransitionEvent::Reject(s.clone()),
            StateTransitionEvent::PartialFill(q, p) => StateTransitionEvent::PartialFill(*q, *p),
            StateTransitionEvent::Fill => StateTransitionEvent::Fill,
            StateTransitionEvent::Cancel => StateTransitionEvent::Cancel,
            StateTransitionEvent::Expire => StateTransitionEvent::Expire,
            StateTransitionEvent::SystemError(s) => StateTransitionEvent::SystemError(s.clone()),
        }
    }
}

/// Why the state machine refused.
#[derive(Debug, Clone, Copy, PartialEq, Eq, Structural)]
pub enum StateError {
    /// The event is not allowed in the state that the order is in.
    InvalidTransition(OrderState),
    /// No order of that id is tracked.
    UnknownOrder,
}

/// The edges of the state machine: `to` can directly follow `from`.
pub open spec fn edge(from: OrderState, to: OrderState) -> bool {
    match (from, to) {
        (OrderState::Created, OrderState::Validated) => true,
        (OrderState::Validated, OrderState::Submitting) => true,
        (OrderState::Submitting, OrderState::Submitted) => true,
        (OrderState::Submitting, OrderState::Failed) => true,
        (OrderState::Submitted, OrderState::Acknowledged) => true,
        (OrderState::Submitted, OrderState::Rejected) => true,
        (OrderState::Acknowledged, OrderState::PartiallyFilled) => true,
        (OrderState::Acknowledged, OrderState::Filled) => true,
        (OrderState::PartiallyFilled, OrderState::PartiallyFilled) => true,
        (OrderState::PartiallyFilled, OrderState::Filled) => true,
        (_, OrderState::Cancelled) => from.can_cancel_spec(),
        (_, OrderState::Expired) => from.is_active_spec(),
        (_, OrderState::Failed) => !from.is_terminal_spec(),
        _ => false,
    }
}

/// The state that follows `state` on `event`, if the event is allowed
/// there.
pub open spec fn next_state(state: OrderState, event: StateTransitionEvent) -> Option<OrderState> {
    match (state, event) {
        (OrderState::Created, StateTransitionEvent::Validate) => Some(OrderState::Validated),
        (OrderState::Validated, StateTransitionEvent::Submit) => Some(OrderState::Submitting),
        (OrderState::Submitting, StateTransitionEvent::SubmitSuccess(_)) => Some(
            OrderState::Submitted,
        ),
        (OrderState::Submitting, StateTransitionEvent::SubmitFailed(_)) => Some(OrderState::Failed),
        (OrderState::Submitted, StateTransitionEvent::Acknowledge) => Some(OrderState::Acknowledged),
        (OrderState::Submitted, StateTransitionEvent::Reject(_)) => Some(OrderState::Rejected),
        (OrderState::Acknowledged, StateTransitionEvent::PartialFill(_, _)) => Some(
            OrderState::PartiallyFilled,
        ),
        (OrderState::Acknowledged, StateTransitionEvent::Fill) => Some(OrderState::Filled),
        (OrderState::PartiallyFilled, StateTransitionEvent::PartialFill(_, _)) => Some(
            OrderState::PartiallyFilled,
        ),
        (OrderState::PartiallyFilled, StateTransitionEvent::Fill) => Some(OrderState::Filled),
        (_, StateTransitionEvent::Cancel) => if state.can_cancel_spec() {
            Some(OrderState::Cancelled)
        } else {
            None
        },
        (_, StateTransitionEvent::Expire) => if state.is_active_spec() {
            Some(OrderState::Expired)
        } else {
            None
        },
        (_, StateTransitionEvent::SystemError(_)) => if !state.is_terminal_spec() {
            Some(OrderState::Failed)
        } else {
            None
        },
        _ => None,
    }
}

/// A sequence of states in which each one can directly follow the one
/// before it.
pub open spec fn is_path(states: Seq<OrderState>) -> bool {
    forall|i: int| 0 <= i < states.len() - 1 ==> #[trigger] step_at(states, i)
}

/// The state at `i + 1` can directly follow the state at `i`.
pub open spec fn step_at(states: Seq<OrderState>, i: int) -> bool {
    edge(states[i], states[i + 1])
}

/// The state can be reached from `Created` along the edges.
pub open spec fn reachable(state: OrderState) -> bool {
    exists|states: Seq<OrderState>|
        states.len() > 0 && states[0] == OrderState::Created && states.last() == state
            && #[trigger] is_path(states)
}

/// Every move that the machine makes follows an edge, and no move leaves a
/// terminal state.
pub proof fn lemma_moves_follow_edges(state: OrderState, event: StateTransitionEvent)
    ensures
        next_state(state, event) matches Some(to) ==> edge(state, to),
        state.is_terminal_spec() ==> next_state(state, event) is None,
{
}

/// A state that follows a reachable one is reachable.
pub proof fn lemma_reachable_step(from: OrderState, to: OrderState)
    requires
        reachable(from),
        edge(from, to),
    ensures
        reachable(to),
{
    let states = choose|states: Seq<OrderState>|
        states.len() > 0 && states[0] == OrderState::Created && states.last() == from
            && #[trigger] is_path(states);
    let longer = states.push(to);
    assert forall|i: int| 0 <= i < longer.len() - 1 implies #[trigger] step_at(longer, i) by {
        if i < states.len() - 1 {
            assert(step_at(states, i));
        }
    }
    assert(is_path(longer));
    assert(longer[0] == OrderState::Created && longer.last() == to);
}

/// The state an order starts in is reachable.
pub proof fn lemma_created_reachable()
    ensures
        reachable(OrderState::Created),
{
    let states = seq![OrderState::Created];
    assert(is_path(states));
    assert(states[0] == OrderState::Created && states.last() == OrderState::Created);
}

pub struct OrderStateMachine {
    current_state: OrderState,
}

impl OrderStateMachine {
    /// The state that the machine is in.
    pub closed spec fn state(self) -> OrderState {
        self.current_state
    }

    /// A machine in `Created`.
    pub fn new() -> (r: OrderStateMachine)
        ensures
            r.state() == OrderState::Created,
    {
        OrderStateMachine { current_state: OrderState::Created }
    }

    /// The state that the machine is in.
    pub fn current_state(&self) -> (r: OrderState)
        ensures
            r == self.state(),
    {
        self.current_state
    }

    /// The state that would follow on `event`.
    fn get_next_state(&self, event: &StateTransitionEvent) -> (r: Result<OrderState, StateError>)
        ensures
            r == match next_state(self.state(), *event) {
                Some(to) => Ok::<OrderState, StateError>(to),
                None => Err::<OrderState, StateError>(StateError::InvalidTransition(self.state())),
            },
    {
        let state = self.current_state;
        let next = match (state, event) {
            (OrderState::Created, StateTransitionEvent::Validate) => Some(OrderState::Validated),
            (OrderState::Validated, StateTransitionEvent::Submit) => Some(OrderState::Submitting),
            (OrderState::Submitting, StateTransitionEvent::SubmitSuccess(_)) => Some(
                OrderState::Submitted,
            ),
            (OrderState::Submitting, StateTransitionEvent::SubmitFailed(_)) => Some(
                OrderState::Failed,
            ),
            (OrderState::Submitted, StateTransitionEvent::Acknowledge) => Some(
                OrderState::Acknowledged,
            ),
            (OrderState::Submitted, StateTransitionEvent::Reject(_)) => Some(OrderState::Rejected),
            (OrderState::Acknowledged, StateTransitionEvent::PartialFill(_, _)) => Some(
                OrderState::PartiallyFilled,
            ),
            (OrderState::Acknowledged, StateTransitionEvent::Fill) => Some(OrderState::Filled),
            (OrderState::PartiallyFilled, StateTransitionEvent::PartialFill(_, _)) => Some(
                OrderState::PartiallyFilled,
            ),
            (OrderState::PartiallyFilled, StateTransitionEvent::Fill) => Some(OrderState::Filled),
            (_, StateTransitionEvent::Cancel) => if state.can_cancel() {
                Some(OrderState::Cancelled)
            } else {
                None
            },
            (_, StateTransitionEvent::Expire) => if state.is_active() {
                Some(OrderState::Expired)
            } else {
                None
            },
            (_, StateTransitionEvent::SystemError(_)) => if !state.is_terminal() {
                Some(OrderState::Failed)
            } else {
                None
            },
            _ => None,
        };
        match next {
            Some(to) => Ok(to),
            None => Err(StateError::InvalidTransition(state)),
        }
    }

    /// Moves the machine on `event`, or refuses and leaves it where it is.
    pub fn transition(&mut self, event: &StateTransitionEvent) -> (r: Result<OrderState, StateError>)
        ensures
            match next_state(old(self).state(), *event) {
                Some(to) => r == Ok::<OrderState, StateError>(to) && final(self).state() == to && edge(
                    old(self).state(),
                    to,
                ),
                None => r == Err::<OrderState, StateError>(
                    StateError::InvalidTransition(old(self).state()),
                ) && final(self).state() == old(self).state(),
            },
    {
        let next = self.get_next_state(event)?;
        self.current_state = next;
        Ok(next)
    }

    /// Whether `event` is allowed in the current state.
    pub fn can_transition(&self, event: &StateTransitionEvent) -> (r: bool)
        ensures
            r == next_state(self.state(), *event).is_some(),
    {
        self.get_next_state(event).is_ok()
    }

    /// Puts the machine back into `Created`.
    pub fn reset(&mut self)
        ensures
            final(self).state() == OrderState::Created,
    {
        self.current_state = OrderState::Created;
    }
}

/// One accepted move of one order.
#[derive(Debug)]
pub struct StateTransitionHistory {
    pub from_state: OrderState,
    pub to_state: OrderState,
    pub event: StateTransitionEvent,
    /// Milliseconds since the Unix epoch.
    pub timestamp: i64,
    pub details: Option<String>,
}

/// What the state manager keeps of one order: its machine, until the
/// order is cleaned up, and the record of its moves.
pub struct OrderTrack {
    pub machine: Option<OrderStateMachine>,
    pub history: Vec<StateTransitionHistory>,
}

impl OrderTrack {
    /// The state after the last recorded move; `Created` where none is
    /// recorded.
    pub open spec fn last_state(self) -> OrderState {
        if self.history@.len() == 0 {
            OrderState::Created
        } else {
            self.history@.last().to_state
        }
    }

    /// The order has a machine, and it stands in a terminal state.
    pub open spec fn is_terminal(self) -> bool {
        self.machine matches Some(m) && m.state().is_terminal_spec()
    }

    /// The record is a walk from `Created` along the edges, each move the
    /// one that its event asks for, and the machine stands where the walk
    /// ends.
    pub open spec fn wf(self) -> bool {
        &&& forall|i: int| 0 <= i < self.history@.len() ==> #[trigger] recorded_move_ok(self.history@, i)
        &&& (self.machine matches Some(m) ==> m.state() == self.last_state())
    }
}

/// The move recorded at `i` starts where the one before it ended
/// (`Created` for the first) and ends where its event leads.
pub open spec fn recorded_move_ok(history: Seq<StateTransitionHistory>, i: int) -> bool {
    &&& history[i].from_state == if i == 0 {
        OrderState::Created
    } else {
        history[i - 1].to_state
    }
    &&& next_state(history[i].from_state, history[i].event) == Some(history[i].to_state)
}

/// The state machines and histories of all tracked orders.
pub struct StateManager {
    pub tracks: Table<OrderTrack>,
}

impl StateManager {
    /// No order is tracked twice, and every track is a walk from
    /// `Created`.
    pub open spec fn wf(self) -> bool {
        &&& self.tracks.wf()
        &&& forall|k: Seq<char>| (#[trigger] self.tracks.get(k)) matches Some(t) ==> t.wf()
    }

    /// The state of the order, if it is tracked and not cleaned up.
    pub open spec fn state_of(self, order_id: Seq<char>) -> Option<OrderState> {
        match self.tracks.get(order_id) {
            Some(t) => match t.machine {
                Some(m) => Some(m.state()),
                None => None,
            },
            None => None,
        }
    }

    /// The recorded moves of the order, oldest first; none where the order
    /// is not tracked.
    pub open spec fn history_of(self, order_id: Seq<char>) -> Seq<StateTransitionHistory> {
        match self.tracks.get(order_id) {
            Some(t) => t.history@,
            None => Seq::empty(),
        }
    }

    /// A manager that tracks no order.
    pub fn new() -> (r: StateManager)
        ensures
            r.wf(),
            forall|k: Seq<char>| #[trigger] r.tracks.get(k) is None,
    {
        StateManager { tracks: Table::new() }
    }

    /// Starts to track an order, in `Created` with an empty history. An
    /// order that is tracked already starts over.
    pub fn create_order(&mut self, order_id: String)
        requires
            old(self).wf(),
        ensures
            final(self).wf(),
            final(self).state_of(order_id@) == Some(OrderState::Created),
            final(self).tracks.has(order_id@),
            final(self).history_of(order_id@).len() == 0,
            forall|k: Seq<char>|
                k != order_id@ ==> #[trigger] final(self).tracks.get(k) == old(self).tracks.get(k),
    {
        let fresh = OrderTrack { machine: Some(OrderStateMachine::new()), history: Vec::new() };
        self.tracks.upsert(order_id, fresh);
    }

    /// Moves the order on `event` and records the move with the time
    /// `now`; or refuses, and changes nothing.
    pub fn transition_order(&mut self, order_id: &str, event: StateTransitionEvent, now: i64) -> (r:
        Result<OrderState, StateError>)
        requires
            old(self).wf(),
        ensures
            final(self).wf(),
            final(self).tracks.keys@ == old(self).tracks.keys@,
            forall|k: Seq<char>|
                k != order_id@ ==> #[trigger] final(self).tracks.get(k) == old(self).tracks.get(k),
            match old(self).state_of(order_id@) {
                None => r == Err::<OrderState, StateError>(StateError::UnknownOrder) && *final(self)
                    == *old(self),
                Some(from) => match next_state(from, event) {
                    None => r == Err::<OrderState, StateError>(StateError::InvalidTransition(from))
                        && *final(self) == *old(self),
                    Some(to) => {
                        &&& r == Ok::<OrderState, StateError>(to)
                        &&& edge(from, to)
                        &&& final(self).state_of(order_id@) == Some(to)
                        &&& final(self).history_of(order_id@) == old(self).history_of(order_id@).push(
                            StateTransitionHistory {
                                from_state: from,
                                to_state: to,
                                event,
                                timestamp: now,
                                details: None,
                            },
                        )
                    },
                },
            },
    {
        let i = match self.tracks.find(order_id) {
            Some(i) => i,
            None => {
                return Err(StateError::UnknownOrder);
            },
        };
        let from = match &self.tracks.values[i].machine {
            Some(m) => m.current_state(),
            None => {
                return Err(StateError::UnknownOrder);
            },
        };
        let mut machine = OrderStateMachine { current_state: from };
        let to = machine.transition(&event)?;
        let ghost before = self.tracks.values@[i as int];
        self.tracks.values[i].machine = Some(machine);
        self.tracks.values[i].history.push(
            StateTransitionHistory { from_state: from, to_state: to, event, timestamp: now, details: None },
        );
        proof {
            let after = self.tracks.values@[i as int];
            let n = before.history@.len() as int;
            assert(before.wf());
            assert forall|k: int| 0 <= k < after.history@.len() implies #[trigger] recorded_move_ok(
                after.history@,
                k,
            ) by {
                if k < n {
                    assert(recorded_move_ok(before.history@, k));
                } else if n > 0 {
                    assert(recorded_move_ok(before.history@, n - 1));
                }
            }
            assert(after.wf());
            old(self).tracks.lemma_edited(self.tracks, i as int);
        }
        Ok(to)
    }

    /// What [`StateManager::transition_order`] would return for the order
    /// on `event`; nothing moves.
    pub fn check(&self, order_id: &str, event: &StateTransitionEvent) -> (r: Result<
        OrderState,
        StateError,
    >)
        requires
            self.wf(),
        ensures
            r == (match self.state_of(order_id@) {
                None => Err::<OrderState, StateError>(StateError::UnknownOrder),
                Some(from) => match next_state(from, *event) {
                    Some(to) => Ok::<OrderState, StateError>(to),
                    None => Err::<OrderState, StateError>(StateError::InvalidTransition(from)),
                },
            }),
    {
        match self.tracks.lookup(order_id) {
            Some(t) => match &t.machine {
                Some(m) => m.get_next_state(event),
                None => Err(StateError::UnknownOrder),
            },
            None => Err(StateError::UnknownOrder),
        }
    }

    /// The state of the order, if it is tracked and not cleaned up.
    pub fn get_state(&self, order_id: &str) -> (r: Option<OrderState>)
        requires
            self.wf(),
        ensures
            r == self.state_of(order_id@),
    {
        match self.tracks.lookup(order_id) {
            Some(t) => match &t.machine {
                Some(m) => Some(m.current_state()),
                None => None,
            },
            None => None,
        }
    }

    /// The recorded moves of the order, oldest first, if it is tracked.
    pub fn get_history(&self, order_id: &str) -> (r: Option<&Vec<StateTransitionHistory>>)
        requires
            self.wf(),
        ensures
            match r {
                Some(h) => self.tracks.get(order_id@) matches Some(t) && t.history == *h,
                None => self.tracks.get(order_id@) is None,
            },
    {
        match self.tracks.lookup(order_id) {
            Some(t) => Some(&t.history),
            None => None,
        }
    }

    /// Stops tracking an order.
    pub fn remove_order(&mut self, order_id: &str)
        requires
            old(self).wf(),
        ensures
            final(self).wf(),
            final(self).tracks.get(order_id@) is None,
            forall|k: Seq<char>|
                k != order_id@ ==> #[trigger] final(self).tracks.get(k) == old(self).tracks.get(k),
    {
        self.tracks.remove(order_id);
    }

    /// The ids of the tracked orders whose state is one that the filter
    /// admits, in the order in which tracking began.
    fn ids_in(&self, filter: StateFilter) -> (r: Vec<String>)
        requires
            self.wf(),
        ensures
            r@ == picked(self.tracks.keys@, self.tracks.values@, filter, self.tracks.keys@.len() as int),
    {
        let mut out: Vec<String> = Vec::new();
        let mut i: usize = 0;
        while i < self.tracks.keys.len()
            invariant
                i <= self.tracks.keys@.len(),
                self.tracks.wf(),
                out@ == picked(self.tracks.keys@, self.tracks.values@, filter, i as int),
            decreases self.tracks.keys@.len() - i,
        {
            let wanted = match &self.tracks.values[i].machine {
                Some(m) => match filter {
                    StateFilter::Active => m.current_state().is_active(),
                    StateFilter::Terminal => m.current_state().is_terminal(),
                },
                None => false,
            };
            if wanted {
                out.push(self.tracks.keys[i].clone());
            }
            i += 1;
        }
        out
    }

    /// The ids of the orders that are with the exchange.
    pub fn get_active_orders(&self) -> (r: Vec<String>)
        requires
            self.wf(),
        ensures
            r@ == picked(
                self.tracks.keys@,
                self.tracks.values@,
                StateFilter::Active,
                self.tracks.keys@.len() as int,
            ),
    {
        self.ids_in(StateFilter::Active)
    }

    /// The ids of the orders that have come to an end.
    pub fn get_terminal_orders(&self) -> (r: Vec<String>)
        requires
            self.wf(),
        ensures
            r@ == picked(
                self.tracks.keys@,
                self.tracks.values@,
                StateFilter::Terminal,
                self.tracks.keys@.len() as int,
            ),
    {
        self.ids_in(StateFilter::Terminal)
    }

    /// Drops the machines of the orders that have come to an end, and
    /// their histories too unless `keep_history` is set. Orders that have
    /// not come to an end stay as they are.
    pub fn cleanup_terminal_orders(&mut self, keep_history: bool)
        requires
            old(self).wf(),
        ensures
            final(self).wf(),
            forall|k: Seq<char>|
                #[trigger] final(self).tracks.get(k) == (match old(self).tracks.get(k) {
                    Some(t) => if t.is_terminal() {
                        if keep_history {
                            Some(OrderTrack { machine: None, history: t.history })
                        } else {
                            None
                        }
                    } else {
                        Some(t)
                    },
                    None => None,
                }),
    {
        let mut i: usize = 0;
        while i < self.tracks.values.len()
            invariant
                self.wf(),
                i <= self.tracks.values@.len(),
                forall|j: int| 0 <= j < i ==> !(#[trigger] self.tracks.values@[j]).is_terminal(),
                forall|k: Seq<char>|
                    #[trigger] self.tracks.get(k) == (match old(self).tracks.get(k) {
                        Some(t) => if t.is_terminal() && self.tracks.get(k) != Some(t) {
                            if keep_history {
                                Some(OrderTrack { machine: None, history: t.history })
                            } else {
                                None
                            }
                        } else {
                            Some(t)
                        },
                        None => None,
                    }),
            decreases self.tracks.values@.len() - i,
        {
            let terminal = match &self.tracks.values[i].machine {
                Some(m) => m.current_state().is_terminal(),
                None => false,
            };
            let ghost snapshot = *self;
            proof {
                snapshot.tracks.lemma_entry(i as int);
            }
            if terminal && keep_history {
                self.tracks.values[i].machine = None;
                proof {
                    snapshot.tracks.lemma_edited(self.tracks, i as int);
                    let after = self.tracks.values@[i as int];
                    let before = snapshot.tracks.values@[i as int];
                    assert(before.wf());
                    assert forall|k: int| 0 <= k < after.history@.len() implies #[trigger] recorded_move_ok(
                        after.history@,
                        k,
                    ) by {
                        assert(recorded_move_ok(before.history@, k));
                    }
                    assert forall|j: int| 0 <= j < i + 1 implies !(#[trigger] self.tracks.values@[j]).is_terminal() by {
                        if j < i {
                            assert(self.tracks.values@[j] == snapshot.tracks.values@[j]);
                        }
                    }
                }
                i += 1;
            } else if terminal {
                self.tracks.remove_at(i);
                proof {
                    assert forall|j: int| 0 <= j < i implies !(#[trigger] self.tracks.values@[j]).is_terminal() by {
                        assert(self.tracks.values@[j] == snapshot.tracks.values@[j]);
                    }
                }
            } else {
                i += 1;
            }
        }
        proof {
            assert forall|k: Seq<char>|
                #[trigger] self.tracks.get(k) == (match old(self).tracks.get(k) {
                    Some(t) => if t.is_terminal() {
                        if keep_history {
                            Some(OrderTrack { machine: None, history: t.history })
                        } else {
                            None
                        }
                    } else {
                        Some(t)
                    },
                    None => None,
                }) by {
                if self.tracks.get(k) is Some {
                    self.tracks.lemma_slot(k);
                    let j = self.tracks.slot(k);
                    assert(!self.tracks.values@[j].is_terminal());
                }
            }
        }
    }
}

/// Which orders a listing asks for.
#[derive(Debug, Clone, Copy, PartialEq, Eq, Structural)]
pub enum StateFilter {
    Active,
    Terminal,
}

impl StateFilter {
    pub open spec fn admits(self, track: OrderTrack) -> bool {
        match track.machine {
            Some(m) => match self {
                StateFilter::Active => m.state().is_active_spec(),
                StateFilter::Terminal => m.state().is_terminal_spec(),
            },
            None => false,
        }
    }
}

/// The keys of the first `upto` entries whose track the filter admits.
pub open spec fn picked(keys: Seq<String>, tracks: Seq<OrderTrack>, filter: StateFilter, upto: int) -> Seq<
    String,
>
    decreases upto,
{
    if upto <= 0 {
        Seq::empty()
    } else if filter.admits(tracks[upto - 1]) {
        picked(keys, tracks, filter, upto - 1).push(keys[upto - 1])
    } else {
        picked(keys, tracks, filter, upto - 1)
    }
}

/// The state after the first `n` recorded moves; `Created` where `n` is
/// zero.
pub open spec fn state_after_moves(history: Seq<StateTransitionHistory>, n: int) -> OrderState {
    if n <= 0 {
        OrderState::Created
    } else {
        history[n - 1].to_state
    }
}

/// Whatever was recorded of an order, the order stands in a state that
/// can be reached from `Created` along the edges, and so it did after each
/// of its moves.
pub proof fn lemma_recorded_states_reachable(history: Seq<StateTransitionHistory>, n: int)
    requires
        0 <= n <= history.len(),
        forall|i: int| 0 <= i < history.len() ==> #[trigger] recorded_move_ok(history, i),
    ensures
        reachable(state_after_moves(history, n)),
    decreases n,
{
    if n == 0 {
        lemma_created_reachable();
    } else {
        lemma_recorded_states_reachable(history, n - 1);
        assert(recorded_move_ok(history, n - 1));
        lemma_moves_follow_edges(history[n - 1].from_state, history[n - 1].event);
        lemma_reachable_step(history[n - 1].from_state, history[n - 1].to_state);
    }
}

/// The state of every tracked order can be reached from `Created` along
/// the edges.
pub proof fn lemma_tracked_state_reachable(track: OrderTrack)
    requires
        track.wf(),
    ensures
        reachable(track.last_state()),
        track.machine matches Some(m) ==> reachable(m.state()),
{
    lemma_recorded_states_reachable(track.history@, track.history@.len() as int);
}

} // verus!
