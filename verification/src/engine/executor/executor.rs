//! The executor proper. Executing a command alternates decisions with
//! sends: the executor decides what to send and where
//! ([`OrderExecutor::prepare`]), the caller sends and reports how each
//! send went ([`OrderExecutor::record_outcome`]), and the executor decides
//! what came of it ([`OrderExecutor::complete`]) and whether to try again
//! ([`OrderExecutor::next_retry_step`], [`OrderExecutor::prepare_retry`]).
//!
//! The executor keeps two records: the ids of the commands that it has
//! taken, and the client order ids that have gone out. A command whose id
//! is on record is a duplicate, and so is one whose client order id is.

use vstd::prelude::*;
use vstd::string::*;
use crate::common::table::Table;
use crate::common::text::str_equal;
use crate::engine::config::ExecutorConfig;
use crate::engine::executor::idempotent::{kept, minted, IdempotentManager};
use crate::engine::executor::order_builder::{params_of, signature_of, OrderBuilder};
use crate::engine::executor::response_handler::{accepted, best_upto, ResponseHandler};
use crate::engine::executor::signer::Signer;
use crate::engine::executor::types::{
    ExecutionCommand, ExecutionResult, OrderRequest, OrderResponse, OrderStatus,
};
use crate::engine::health::connection_selector::{is_choice, ConnectionSelector};
use crate::engine::health::health_tracker::{smoothed, HealthTracker};

verus! {

/// What to send, and where.
#[derive(Debug)]
pub struct Dispatch {
    pub request: OrderRequest,
    /// The connections to send the request to, all at once.
    pub connection_ids: Vec<u128>,
}

/// What the executor decided about a command.
#[derive(Debug)]
pub enum Prepared {
    /// Nothing is sent; the result says why.
    Rejected(ExecutionResult),
    /// The request goes out.
    Send(Dispatch),
}

/// How one send went.
#[derive(Debug, Clone, Copy, PartialEq, Eq, Structural)]
pub enum SendOutcome {
    /// The connection took the request after `rtt_us` microseconds.
    Delivered { rtt_us: u64 },
    /// The connection refused the request.
    Failed,
    /// The connection did not take the request in time.
    TimedOut,
}

/// What to do after an attempt.
#[derive(Debug, Clone, Copy, PartialEq, Eq, Structural)]
pub enum RetryStep {
    /// The result stands.
    Done,
    /// Try again after a pause of `backoff_ms` milliseconds.
    RetryAfter { backoff_ms: u64 },
}

/// A response that answers the request with the given client order id.
pub open spec fn is_answer(response: OrderResponse, client_order_id: Seq<char>) -> bool {
    response.error is Some || response.client_order_id@ == client_order_id
}

/// For how long a command and its client order id stay on record, in
/// milliseconds.
pub const DEDUP_WINDOW_MS: i64 = 60_000;

/// Whether the command with the given id is among the commands on
/// record.
pub open spec fn taken(commands: Seq<(u128, i64)>, id: u128) -> bool {
    exists|i: int| 0 <= i < commands.len() && (#[trigger] commands[i]).0 == id
}

/// The first `upto` commands on record without those that were taken
/// more than `max_age_ms` before `now`, in the same order.
pub open spec fn recent(commands: Seq<(u128, i64)>, max_age_ms: i64, now: i64, upto: int) -> Seq<(u128, i64)>
    decreases upto,
{
    if upto <= 0 {
        Seq::empty()
    } else if now - commands[upto - 1].1 > max_age_ms {
        recent(commands, max_age_ms, now, upto - 1)
    } else {
        recent(commands, max_age_ms, now, upto - 1).push(commands[upto - 1])
    }
}

/// The client order id under which a command goes out: the one that its
/// sender chose, else one that is minted from its id and the time.
pub open spec fn client_id_of(command: ExecutionCommand, prefix: Seq<char>, now: i64) -> Seq<char> {
    match command.client_order_id {
        Some(id) => id@,
        None => minted(prefix, command.id, now),
    }
}

/// The result is a failure without responses, for the given reason.
pub open spec fn is_failure(result: ExecutionResult, command_id: u128, reason: Seq<char>) -> bool {
    &&& result.command_id == command_id
    &&& !result.success
    &&& result.responses@.len() == 0
    &&& result.selected_response is None
    &&& result.error matches Some(e) && e@ == reason
}

/// The pause before the attempt after `attempt`, in milliseconds: a tenth
/// of a second for each attempt made.
pub open spec fn backoff_ms(attempt: usize) -> u64 {
    if (attempt + 1) * 100 <= u64::MAX {
        ((attempt + 1) * 100) as u64
    } else {
        u64::MAX
    }
}

pub struct OrderExecutor {
    pub config: ExecutorConfig,
    pub selector: ConnectionSelector,
    pub idempotent_manager: IdempotentManager,
    /// The keys of the account with each exchange, by exchange.
    pub signers: Table<Signer>,
    /// The ids of the commands that were taken, each with the time at
    /// which it was taken, oldest first.
    pub commands: Vec<(u128, i64)>,
}

/// The place of the first of the connections from `from` on that is the
/// given one, or the length of the list where there is none.
pub open spec fn first_from(waiting: Seq<u128>, connection_id: u128, from: int) -> int
    decreases waiting.len() - from,
{
    if from < 0 || from >= waiting.len() {
        waiting.len() as int
    } else if waiting[from] == connection_id {
        from
    } else {
        first_from(waiting, connection_id, from + 1)
    }
}

/// What a reply does to the list of the connections whose answer is
/// still waited for: a reply that answers the request, from a connection
/// on the list, takes that connection off the list; any other reply
/// counts for nothing.
pub open spec fn reply_taken(
    before: Seq<u128>,
    after: Seq<u128>,
    connection_id: u128,
    answers: bool,
    r: bool,
) -> bool {
    let place = first_from(before, connection_id, 0);
    &&& r == (answers && before.contains(connection_id))
    &&& r ==> 0 <= place < before.len() && before[place] == connection_id && after == before.remove(place)
    &&& !r ==> after == before
}

/// Whether a command is refused as a duplicate: its id is on record,
/// unless this is a further attempt at it, or the client order id under
/// which it would go out is.
pub open spec fn is_repeat(executor: OrderExecutor, command: ExecutionCommand, now: i64, retry: bool) -> bool {
    ||| !retry && taken(executor.commands@, command.id)
    ||| executor.idempotent_manager@.dom().contains(
        client_id_of(command, executor.config.idempotent_key_prefix@, now),
    )
}

/// What a command leaves on record: its id, from the first time that it
/// comes, and the client order id under which it goes out, unless it is
/// refused as a duplicate.
pub open spec fn recorded(
    before: OrderExecutor,
    after: OrderExecutor,
    command: ExecutionCommand,
    now: i64,
    retry: bool,
) -> bool {
    &&& after.commands@ == if taken(before.commands@, command.id) {
        before.commands@
    } else {
        before.commands@.push((command.id, now))
    }
    &&& after.idempotent_manager@ == if is_repeat(before, command, now, retry) {
        before.idempotent_manager@
    } else {
        before.idempotent_manager@.insert(
            client_id_of(command, before.config.idempotent_key_prefix@, now),
            now,
        )
    }
}

/// What every decision about a command leaves of the records: the id of
/// the command is on record, whatever was on record still is, nothing
/// else has come on record but the id of the command and the client
/// order id of a request that goes out, and that id had not gone out
/// before.
pub open spec fn records_kept(
    before: OrderExecutor,
    after: OrderExecutor,
    command: ExecutionCommand,
    r: Prepared,
) -> bool {
    &&& taken(after.commands@, command.id)
    &&& forall|id: u128| #[trigger] taken(before.commands@, id) ==> taken(after.commands@, id)
    &&& forall|id: u128|
        #[trigger] taken(after.commands@, id) ==> id == command.id || taken(before.commands@, id)
    &&& before.idempotent_manager@.dom().subset_of(after.idempotent_manager@.dom())
    &&& r matches Prepared::Send(d) ==> after.idempotent_manager@.dom().contains(
        d.request.client_order_id@,
    ) && !before.idempotent_manager@.dom().contains(d.request.client_order_id@)
}

impl OrderExecutor {
    /// The tables are well-formed.
    pub open spec fn wf(self) -> bool {
        &&& self.selector.wf()
        &&& self.signers.wf()
        &&& self.idempotent_manager.prefix_spec() == self.config.idempotent_key_prefix@
    }

    /// An executor without signers and without ids in use.
    pub fn new(config: ExecutorConfig, selector: ConnectionSelector) -> (r: OrderExecutor)
        requires
            selector.wf(),
        ensures
            r.wf(),
            r.config == config,
            r.selector == selector,
            r.idempotent_manager@ == crate::engine::executor::idempotent::no_ids(),
            r.commands@.len() == 0,
            forall|k: Seq<char>| #[trigger] r.signers.get(k) is None,
    {
        let idempotent_manager = IdempotentManager::new(config.idempotent_key_prefix.clone());
        OrderExecutor { config, selector, idempotent_manager, signers: Table::new(), commands: Vec::new() }
    }

    /// Sets the keys of the account with an exchange.
    pub fn register_signer(&mut self, exchange: String, api_key: String, secret_key: String)
        requires
            old(self).wf(),
        ensures
            final(self).wf(),
            final(self).signers.get(exchange@) matches Some(s) && s.key() == api_key@ && s.secret()
                == secret_key@,
            forall|k: Seq<char>|
                k != exchange@ ==> #[trigger] final(self).signers.get(k) == old(self).signers.get(k),
            final(self).config == old(self).config,
            final(self).selector == old(self).selector,
            final(self).idempotent_manager == old(self).idempotent_manager,
            final(self).commands == old(self).commands,
    {
        let signer = Signer::new(api_key, secret_key);
        self.signers.upsert(exchange, signer);
    }

    /// A failure without responses.
    fn failure(command_id: u128, reason: String) -> (r: ExecutionResult)
        ensures
            is_failure(r, command_id, reason@),
    {
        ExecutionResult {
            command_id,
            success: false,
            responses: Vec::new(),
            selected_response: None,
            error: Some(reason),
        }
    }

    /// Whether the command with the given id is on record.
    pub fn has_taken(&self, id: u128) -> (r: bool)
        ensures
            r == taken(self.commands@, id),
    {
        let mut i: usize = 0;
        while i < self.commands.len()
            invariant
                i <= self.commands@.len(),
                forall|j: int| 0 <= j < i ==> (#[trigger] self.commands@[j]).0 != id,
            decreases self.commands@.len() - i,
        {
            if self.commands[i].0 == id {
                return true;
            }
            i += 1;
        }
        false
    }

    /// Decides what to send for a command, and where, on its first coming
    /// or on a further attempt.
    fn decide(&mut self, tracker: &HealthTracker, command: &ExecutionCommand, now: i64, retry: bool) -> (r:
        Prepared)
        requires
            old(self).wf(),
            tracker.wf(),
            command.wf(),
        ensures
            final(self).wf(),
            final(self).config == old(self).config,
            final(self).signers == old(self).signers,
            recorded(*old(self), *final(self), *command, now, retry),
            records_kept(*old(self), *final(self), *command, r),
            prepared_as(*old(self), tracker@, *command, now, retry, r),
    {
        let known = self.has_taken(command.id);
        if !known {
            self.commands.push((command.id, now));
        }
        proof {
            let before = old(self).commands@;
            let after = self.commands@;
            if !known {
                assert(after[after.len() - 1].0 == command.id);
            }
            assert(taken(after, command.id));
            assert forall|id: u128| #[trigger] taken(before, id) implies taken(after, id) by {
                let i = choose|i: int| 0 <= i < before.len() && (#[trigger] before[i]).0 == id;
                assert(after[i].0 == id);
            }
            assert forall|id: u128| #[trigger] taken(after, id) implies id == command.id || taken(before, id) by {
                let i = choose|i: int| 0 <= i < after.len() && (#[trigger] after[i]).0 == id;
                if i < before.len() {
                    assert(before[i].0 == id);
                }
            }
        }
        if !retry && known {
            return Prepared::Rejected(
                OrderExecutor::failure(command.id, String::from_str("Duplicate order")),
            );
        }
        let client_order_id = match &command.client_order_id {
            Some(id) => id.clone(),
            None => self.idempotent_manager.mint_client_order_id(command.id, now),
        };
        if !self.idempotent_manager.claim(client_order_id.as_str(), now) {
            return Prepared::Rejected(
                OrderExecutor::failure(command.id, String::from_str("Duplicate order")),
            );
        }
        let signer = match self.signers.lookup(command.exchange.as_str()) {
            Some(s) => s.clone(),
            None => {
                let mut reason = String::from_str("No signer for ");
                reason.append(command.exchange.as_str());
                return Prepared::Rejected(OrderExecutor::failure(command.id, reason));
            },
        };
        let builder = OrderBuilder::new(command.exchange.clone());
        let request = builder.build_order_request(command, client_order_id, &signer, now);
        let connection_ids = self.selector.select_connections(
            tracker,
            command.exchange.as_str(),
            command.market_type.as_str(),
            self.config.concurrent_send_count,
        );
        if connection_ids.len() == 0 {
            return Prepared::Rejected(
                OrderExecutor::failure(command.id, String::from_str("No healthy connections")),
            );
        }
        Prepared::Send(Dispatch { request, connection_ids })
    }

    /// Decides what to send for a command, and where. A command whose id
    /// is on record is rejected as a duplicate, and so is one whose
    /// client order id has gone out before; every other command leaves
    /// both on record. Else the command needs a signer for its exchange
    /// and at least one connection to choose; then its request goes out,
    /// signed, to the chosen connections.
    pub fn prepare(&mut self, tracker: &HealthTracker, command: &ExecutionCommand, now: i64) -> (r: Prepared)
        requires
            old(self).wf(),
            tracker.wf(),
            command.wf(),
        ensures
            final(self).wf(),
            final(self).config == old(self).config,
            final(self).signers == old(self).signers,
            recorded(*old(self), *final(self), *command, now, false),
            records_kept(*old(self), *final(self), *command, r),
            prepared(*old(self), tracker@, *command, now, r),
    {
        self.decide(tracker, command, now, false)
    }

    /// Decides what to send on a further attempt at a command. The id of
    /// the command may be on record, as it is after the first attempt;
    /// the request goes out under a client order id that is minted anew,
    /// which must not have gone out before. A command whose sender chose
    /// its client order id cannot be tried again: that id has gone out.
    pub fn prepare_retry(&mut self, tracker: &HealthTracker, command: &ExecutionCommand, now: i64) -> (r:
        Prepared)
        requires
            old(self).wf(),
            tracker.wf(),
            command.wf(),
        ensures
            final(self).wf(),
            final(self).config == old(self).config,
            final(self).signers == old(self).signers,
            recorded(*old(self), *final(self), *command, now, true),
            records_kept(*old(self), *final(self), *command, r),
            prepared_as(*old(self), tracker@, *command, now, true, r),
    {
        self.decide(tracker, command, now, true)
    }

    /// Forgets the commands that were taken, and the client order ids
    /// that went out, more than `max_age_ms` before `now`.
    pub fn forget(&mut self, max_age_ms: i64, now: i64)
        requires
            old(self).wf(),
        ensures
            final(self).wf(),
            final(self).config == old(self).config,
            final(self).signers == old(self).signers,
            final(self).selector == old(self).selector,
            final(self).idempotent_manager@ == kept(old(self).idempotent_manager@, max_age_ms, now),
            final(self).commands@ == recent(
                old(self).commands@,
                max_age_ms,
                now,
                old(self).commands@.len() as int,
            ),
    {
        self.idempotent_manager.cleanup_old_ids(max_age_ms, now);
        let mut left: Vec<(u128, i64)> = Vec::new();
        let mut i: usize = 0;
        while i < self.commands.len()
            invariant
                i <= self.commands@.len(),
                left@ == recent(self.commands@, max_age_ms, now, i as int),
            decreases self.commands@.len() - i,
        {
            let age: i128 = now as i128 - self.commands[i].1 as i128;
            if !(age > max_age_ms as i128) {
                left.push(self.commands[i]);
            }
            i += 1;
        }
        self.commands = left;
    }

    /// Takes the outcome of one send into the health of its connection: a
    /// delivery counts as a success with its round-trip time, anything
    /// else as a failure.
    pub fn record_outcome(tracker: &mut HealthTracker, connection_id: u128, outcome: SendOutcome, now: i64)
        requires
            old(tracker).wf(),
        ensures
            final(tracker).wf(),
            final(tracker)@.dom() == old(tracker)@.dom(),
            forall|id: u128|
                id != connection_id && old(tracker)@.dom().contains(id) ==> #[trigger] final(tracker)@[id]
                    == old(tracker)@[id],
            old(tracker)@.dom().contains(connection_id) ==> {
                let before = old(tracker)@[connection_id];
                let after = final(tracker)@[connection_id];
                &&& after.last_update == now
                &&& after.exchange == before.exchange
                &&& after.market_type == before.market_type
                &&& match outcome {
                    SendOutcome::Delivered { rtt_us } => {
                        &&& after.consecutive_failures == 0
                        &&& after.rtt_us == smoothed(before.rtt_us, rtt_us)
                        &&& after.total_errors == before.total_errors
                        &&& after.total_messages == if before.total_messages < u64::MAX {
                            (before.total_messages + 1) as u64
                        } else {
                            before.total_messages
                        }
                    },
                    _ => {
                        &&& after.health_score <= before.health_score
                        &&& after.rtt_us == before.rtt_us
                        &&& after.total_messages == before.total_messages
                        &&& after.total_errors == if before.total_errors < u64::MAX {
                            (before.total_errors + 1) as u64
                        } else {
                            before.total_errors
                        }
                        &&& after.consecutive_failures == if before.consecutive_failures < u32::MAX {
                            (before.consecutive_failures + 1) as u32
                        } else {
                            before.consecutive_failures
                        }
                    },
                }
            },
    {
        match outcome {
            SendOutcome::Delivered { rtt_us } => tracker.update_success(connection_id, rtt_us, now),
            _ => tracker.update_failure(connection_id, now),
        }
    }

    /// Decides what came of a command from the responses to it: the best
    /// response is selected, and the command succeeded if that response
    /// says that the order stands.
    pub fn complete(command_id: u128, exchange: &str, responses: Vec<OrderResponse>) -> (r: ExecutionResult)
        ensures
            r.command_id == command_id,
            r.responses == responses,
            r.selected_response == (match best_upto(responses@, responses@.len() as int) {
                Some(j) => Some(responses@[j]),
                None => None,
            }),
            r.success == (r.selected_response matches Some(s) && accepted(s.status)),
            if r.success {
                r.error is None
            } else {
                r.error matches Some(e) && e@ == "Order execution failed"@
            },
    {
        let handler = ResponseHandler::new(String::from_str(exchange));
        let selected_response = handler.select_best_response(&responses);
        let success = match &selected_response {
            Some(s) => matches!(
                s.status,
                OrderStatus::New | OrderStatus::PartiallyFilled | OrderStatus::Filled
            ),
            None => false,
        };
        ExecutionResult {
            command_id,
            success,
            responses,
            selected_response,
            error: if success {
                None
            } else {
                Some(String::from_str("Order execution failed"))
            },
        }
    }

    /// What to do after attempt number `attempt`, counted from zero: a
    /// success stands, and so does the last of the attempts that are
    /// allowed; any other failure is followed by a pause that grows by a
    /// tenth of a second with each attempt, and another attempt.
    pub fn next_retry_step(&self, attempt: usize, success: bool) -> (r: RetryStep)
        ensures
            r == if success || attempt + 1 >= self.config.max_retry_attempts {
                RetryStep::Done
            } else {
                RetryStep::RetryAfter { backoff_ms: backoff_ms(attempt) }
            },
    {
        if success || attempt >= self.config.max_retry_attempts || attempt + 1
            >= self.config.max_retry_attempts {
            return RetryStep::Done;
        }
        let pause: u128 = (attempt as u128 + 1) * 100;
        RetryStep::RetryAfter {
            backoff_ms: if pause > u64::MAX as u128 {
                u64::MAX
            } else {
                pause as u64
            },
        }
    }

    /// Whether a response answers the request with the given client order
    /// id: it names the id, or it reports an error, which names nothing.
    pub fn answers(response: &OrderResponse, client_order_id: &str) -> (r: bool)
        ensures
            r == is_answer(*response, client_order_id@),
    {
        response.error.is_some() || str_equal(response.client_order_id.as_str(), client_order_id)
    }

    /// Takes a reply from a connection while the answers to a request are
    /// waited for, so that each connection answers at most once: says
    /// whether the reply counts, and takes its connection off the list if
    /// it does.
    pub fn take_reply(waiting: &mut Vec<u128>, connection_id: u128, answers: bool) -> (r: bool)
        ensures
            reply_taken(old(waiting)@, final(waiting)@, connection_id, answers, r),
    {
        let mut i: usize = 0;
        while i < waiting.len()
            invariant
                i <= waiting@.len(),
                waiting@ == old(waiting)@,
                forall|j: int| 0 <= j < i ==> waiting@[j] != connection_id,
                first_from(waiting@, connection_id, 0) == first_from(waiting@, connection_id, i as int),
            decreases waiting@.len() - i,
        {
            if waiting[i] == connection_id {
                if answers {
                    waiting.remove(i);
                    return true;
                }
                return false;
            }
            i += 1;
        }
        proof {
            assert(!waiting@.contains(connection_id));
        }
        false
    }

    /// The result of a command for which no attempt is allowed.
    pub fn exhausted(command_id: u128) -> (r: ExecutionResult)
        ensures
            is_failure(r, command_id, "Max retry attempts exceeded"@),
    {
        OrderExecutor::failure(command_id, String::from_str("Max retry attempts exceeded"))
    }
}

/// What the executor decides about a command, on its first coming or on
/// a further attempt.
pub open spec fn prepared_as(
    executor: OrderExecutor,
    known: Map<u128, crate::engine::health::health_tracker::HealthMetrics>,
    command: ExecutionCommand,
    now: i64,
    retry: bool,
    r: Prepared,
) -> bool {
    let min_score = executor.selector.strategy.min_score();
    let count = executor.config.concurrent_send_count;
    if is_repeat(executor, command, now, retry) {
        r matches Prepared::Rejected(result) && is_failure(result, command.id, "Duplicate order"@)
    } else {
        match executor.signers.get(command.exchange@) {
            None => r matches Prepared::Rejected(result) && is_failure(
                result,
                command.id,
                "No signer for "@ + command.exchange@,
            ),
            Some(signer) => match r {
                Prepared::Rejected(result) => is_failure(result, command.id, "No healthy connections"@)
                    && is_choice(Seq::empty(), known, command.exchange@, command.market_type@, min_score, count),
                Prepared::Send(d) => {
                    let client_id = client_id_of(command, executor.config.idempotent_key_prefix@, now);
                    &&& d.connection_ids@.len() > 0
                    &&& is_choice(
                        d.connection_ids@,
                        known,
                        command.exchange@,
                        command.market_type@,
                        min_score,
                        count,
                    )
                    &&& d.request.client_order_id@ == client_id
                    &&& d.request.symbol == command.symbol
                    &&& d.request.side == command.side
                    &&& d.request.order_type == command.order_type
                    &&& d.request.quantity == command.quantity
                    &&& d.request.price == command.price
                    &&& d.request.time_in_force == command.time_in_force
                    &&& d.request.timestamp == now
                    &&& d.request.signature@ == signature_of(
                        command.exchange@,
                        signer,
                        params_of(command, client_id, now),
                        now,
                    )
                },
            },
        }
    }
}

/// What [`OrderExecutor::prepare`] decides.
pub open spec fn prepared(
    executor: OrderExecutor,
    known: Map<u128, crate::engine::health::health_tracker::HealthMetrics>,
    command: ExecutionCommand,
    now: i64,
    r: Prepared,
) -> bool {
    prepared_as(executor, known, command, now, false, r)
}

/// The records of `later` hold all that those of `earlier` hold: no
/// command and no client order id was forgotten in between.
pub open spec fn nothing_forgotten(earlier: OrderExecutor, later: OrderExecutor) -> bool {
    &&& forall|id: u128| taken(earlier.commands@, id) ==> taken(later.commands@, id)
    &&& earlier.idempotent_manager@.dom().subset_of(later.idempotent_manager@.dom())
}

/// A command goes out at most once: once a command has come, whatever
/// became of it, every command with the same id is rejected as a
/// duplicate and sends nothing, whatever client order id it names and
/// whatever else came in between, as long as nothing is forgotten.
pub proof fn lemma_no_second_dispatch(
    first: OrderExecutor,
    after: OrderExecutor,
    later: OrderExecutor,
    known: Map<u128, crate::engine::health::health_tracker::HealthMetrics>,
    command: ExecutionCommand,
    again: ExecutionCommand,
    at: i64,
    now: i64,
    r: Prepared,
)
    requires
        again.id == command.id,
        recorded(first, after, command, at, false),
        nothing_forgotten(after, later),
        prepared(later, known, again, now, r),
    ensures
        r matches Prepared::Rejected(result) && is_failure(result, again.id, "Duplicate order"@),
        !(r is Send),
{
    if !taken(first.commands@, command.id) {
        let pushed = first.commands@.push((command.id, at));
        assert(pushed[pushed.len() - 1].0 == command.id);
    }
    assert(taken(after.commands@, command.id));
}

/// No client order id goes out twice: the id under which a request went
/// out is not the id of any request that goes out later, on a first
/// attempt or on a further one, as long as nothing is forgotten.
pub proof fn lemma_client_order_id_goes_out_once(
    first: OrderExecutor,
    after: OrderExecutor,
    later: OrderExecutor,
    known_first: Map<u128, crate::engine::health::health_tracker::HealthMetrics>,
    known_later: Map<u128, crate::engine::health::health_tracker::HealthMetrics>,
    command: ExecutionCommand,
    again: ExecutionCommand,
    at: i64,
    now: i64,
    retry_first: bool,
    retry_later: bool,
    sent: Prepared,
    r: Prepared,
)
    requires
        prepared_as(first, known_first, command, at, retry_first, sent),
        sent is Send,
        recorded(first, after, command, at, retry_first),
        nothing_forgotten(after, later),
        prepared_as(later, known_later, again, now, retry_later, r),
    ensures
        r matches Prepared::Send(d) ==> d.request.client_order_id@ != sent->Send_0.request.client_order_id@,
{
    let gone = client_id_of(command, first.config.idempotent_key_prefix@, at);
    assert(!is_repeat(first, command, at, retry_first));
    assert(after.idempotent_manager@.dom().contains(gone));
    assert(later.idempotent_manager@.dom().contains(gone));
}

} // verus!
