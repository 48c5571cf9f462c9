//! The processor as a whole: signals go through the pre-pipeline and
//! become queued orders, execution reports go to the order manager and
//! through the post-pipeline.

use vstd::prelude::*;
use crate::common::types::{ExecutionReport, Signal, SignalType};
use crate::processor::order::order_manager::{report_taken, ManagerError, OrderManager};
use crate::processor::order::order_state::OrderState;
use crate::processor::order::priority_queue::band_of;
use crate::processor::pipeline::pipeline::{
    execute_post_pipeline, execute_pre_pipeline, passes, priority_for, PostProcessContext,
    PostProcessReport, PreProcessContext, MAX_SIGNAL_AGE_MS,
};
use crate::processor::pipeline::shared_state::SharedState;
use crate::processor::risk_control::risk_rules::{create_default_rule_chain, RiskRuleChain};
use crate::processor::risk_control::risk_state::RiskState;

verus! {

/// How long orders and pairs that have come to an end are kept, in hours.
pub const KEEP_HOURS: i64 = 24;

/// The time between two clean-ups, in milliseconds: an hour.
pub const CLEANUP_INTERVAL_MS: i64 = 3_600_000;

/// The time between two reports of the figures, in milliseconds: a
/// minute.
pub const STATISTICS_INTERVAL_MS: i64 = 60_000;

/// Whether something that was last done at `last` and is done every
/// `interval_ms` is due at `now`.
pub open spec fn is_due(last: i64, now: i64, interval_ms: i64) -> bool {
    now - last >= interval_ms
}

/// Whether something that was last done at `last` and is done every
/// `interval_ms` is due at `now`.
pub fn due(last: i64, now: i64, interval_ms: i64) -> (r: bool)
    ensures
        r == is_due(last, now, interval_ms),
{
    now as i128 - last as i128 >= interval_ms as i128
}

pub struct PrePostProcessor {
    pub shared_state: SharedState,
    pub risk_state: RiskState,
    pub order_manager: OrderManager,
    pub rule_chain: RiskRuleChain,
    pub processed_signals: usize,
    pub processed_reports: usize,
}

/// What became of an execution report.
#[derive(Debug, Clone, Copy)]
pub struct ReportOutcome {
    /// What the order manager made of the report.
    pub booked: Result<(), ManagerError>,
    /// What the post-pipeline did; none where the order manager refused
    /// the report.
    pub accounting: Option<PostProcessReport>,
}

impl PrePostProcessor {
    /// Every part is well-formed.
    pub open spec fn wf(self) -> bool {
        &&& self.shared_state.wf()
        &&& self.risk_state.wf()
        &&& self.order_manager.wf()
        &&& self.rule_chain.wf()
    }

    /// A processor without orders and positions, with the usual rules.
    pub fn new(now: i64) -> (r: PrePostProcessor)
        ensures
            r.wf(),
            r.processed_signals == 0,
            r.processed_reports == 0,
            r.rule_chain.rules@.len() == 7,
    {
        PrePostProcessor {
            shared_state: SharedState::new(now),
            risk_state: RiskState::new(now),
            order_manager: OrderManager::new(),
            rule_chain: create_default_rule_chain(),
            processed_signals: 0,
            processed_reports: 0,
        }
    }

    /// Takes in a signal. A signal that passes the pre-pipeline becomes an
    /// order, validated and queued at the priority of its kind; the client
    /// id of the order is returned. Any other signal changes nothing but
    /// the count of signals. Signals that initialise the risk control are
    /// not for the pipeline, and pass it by.
    pub fn process_signal(&mut self, signal: Signal, now: i64) -> (r: Option<String>)
        requires
            old(self).wf(),
            signal.wf(),
        ensures
            final(self).wf(),
            final(self).shared_state == old(self).shared_state,
            final(self).risk_state == old(self).risk_state,
            final(self).rule_chain == old(self).rule_chain,
            final(self).processed_reports == old(self).processed_reports,
            final(self).processed_signals == if old(self).processed_signals < usize::MAX {
                (old(self).processed_signals + 1) as usize
            } else {
                old(self).processed_signals
            },
            r is Some <==> signal.signal_type != SignalType::RiskControlInit && passes(
                signal,
                old(self).shared_state,
                old(self).rule_chain,
                MAX_SIGNAL_AGE_MS,
                now,
            ),
            match r {
                Some(id) => {
                    &&& id@ == "ORD_"@ + signal.id@
                    &&& final(self).order_manager.order_book.order(id@) matches Some(o) && o.state
                        == OrderState::Validated && o.priority == priority_for(signal.signal_type)
                        && o.quantity == crate::processor::risk_control::risk_rules::quantity_of(
                        signal,
                    ) && o.symbol == signal.symbol
                    &&& final(self).order_manager.state_manager.state_of(id@) == Some(
                        OrderState::Validated,
                    )
                    &&& final(self).order_manager.priority_queue.bands() == old(self).order_manager.priority_queue.bands().update(
                        band_of(priority_for(signal.signal_type)),
                        old(self).order_manager.priority_queue.bands()[band_of(
                            priority_for(signal.signal_type),
                        )].push(final(self).order_manager.order_book.order(id@)->0.client_order_id),
                    )
                },
                None => final(self).order_manager == old(self).order_manager,
            },
    {
        if self.processed_signals < usize::MAX {
            self.processed_signals = self.processed_signals + 1;
        }
        if signal.signal_type == SignalType::RiskControlInit {
            return None;
        }
        let ctx = PreProcessContext::new(signal);
        let order = match execute_pre_pipeline(
            ctx,
            &self.shared_state,
            &self.rule_chain,
            MAX_SIGNAL_AGE_MS,
            now,
        ) {
            Some(o) => o,
            None => {
                return None;
            },
        };
        let id = self.order_manager.add_order(order);
        match self.order_manager.validate_order(id.as_str(), now) {
            Ok(()) => {},
            Err(_) => {},
        }
        Some(id)
    }

    /// Takes in an execution report: the order manager books it, and
    /// where it did, the post-pipeline brings position, quota and exposure
    /// up to it. A report that the order manager refuses changes nothing
    /// but the count of reports.
    pub fn process_execution_report(&mut self, report: ExecutionReport, trade_id: String, now: i64) -> (r:
        ReportOutcome)
        requires
            old(self).wf(),
            report.wf(),
        ensures
            final(self).wf(),
            final(self).risk_state == old(self).risk_state,
            final(self).rule_chain == old(self).rule_chain,
            final(self).processed_signals == old(self).processed_signals,
            final(self).processed_reports == if old(self).processed_reports < usize::MAX {
                (old(self).processed_reports + 1) as usize
            } else {
                old(self).processed_reports
            },
            match old(self).order_manager.reported_order(report.order_id@) {
                None => r.booked == Err::<(), ManagerError>(ManagerError::UnknownOrder)
                    && final(self).order_manager == old(self).order_manager,
                Some(id) => report_taken(
                    old(self).order_manager,
                    final(self).order_manager,
                    id,
                    report,
                    trade_id,
                    now,
                    r.booked,
                ),
            },
            r.booked is Ok <==> r.accounting is Some,
            r.booked is Err ==> final(self).shared_state == old(self).shared_state,
            r.accounting matches Some(a) ==> crate::processor::pipeline::pipeline::post_processed(
                old(self).shared_state,
                final(self).shared_state,
                report,
                now,
                a,
            ),
            r.accounting matches Some(a) && a.position_updated ==> final(self).shared_state.exposure_matches(),
    {
        if self.processed_reports < usize::MAX {
            self.processed_reports = self.processed_reports + 1;
        }
        let copy = ExecutionReport {
            order_id: report.order_id.clone(),
            client_order_id: report.client_order_id.clone(),
            symbol: report.symbol,
            exchange: report.exchange,
            side: report.side,
            order_type: report.order_type,
            price: report.price,
            quantity: report.quantity,
            filled_quantity: report.filled_quantity,
            status: report.status,
            execution_type: report.execution_type,
            timestamp: report.timestamp,
        };
        let booked = self.order_manager.process_execution_report(report, trade_id, now);
        if booked.is_err() {
            return ReportOutcome { booked, accounting: None };
        }
        let ctx = PostProcessContext::new(copy);
        let accounting = execute_post_pipeline(ctx, &mut self.shared_state, now);
        ReportOutcome { booked, accounting: Some(accounting) }
    }

    /// The periodic clean-up: orders and pairs that came to an end more
    /// than a day ago are removed, the daily figures start anew where a
    /// new day has begun, and a snapshot is noted where one is due. Says
    /// whether a snapshot is due.
    pub fn cleanup(&mut self, now: i64) -> (r: bool)
        requires
            old(self).wf(),
        ensures
            final(self).wf(),
            final(self).rule_chain == old(self).rule_chain,
            final(self).processed_signals == old(self).processed_signals,
            final(self).processed_reports == old(self).processed_reports,
            r == (now - old(self).shared_state.last_persist_time
                > crate::processor::pipeline::shared_state::PERSIST_INTERVAL_MS),
            final(self).shared_state == (SharedState {
                last_persist_time: if r {
                    now
                } else {
                    old(self).shared_state.last_persist_time
                },
                ..old(self).shared_state
            }),
            crate::processor::risk_control::risk_state::day_checked(
                old(self).risk_state,
                final(self).risk_state,
                now,
            ),
            final(self).order_manager.stats == old(self).order_manager.stats,
            final(self).order_manager.priority_queue == old(self).order_manager.priority_queue,
            final(self).order_manager.arbitrage_manager.stats == old(self).order_manager.arbitrage_manager.stats,
            forall|k: Seq<char>|
                #[trigger] final(self).order_manager.arbitrage_manager.pair(k) == (
                match old(self).order_manager.arbitrage_manager.pair(k) {
                    Some(p) => if crate::processor::order::arbitrage::expired_pair(p, KEEP_HOURS, now) {
                        None
                    } else {
                        Some(p)
                    },
                    None => None,
                }),
            forall|k: Seq<char>|
                #[trigger] final(self).order_manager.order_book.orders_by_client_id.get(k) == (
                match old(self).order_manager.order_book.order(k) {
                    Some(o) => if crate::processor::order::order_manager::stale(o, KEEP_HOURS, now) {
                        None
                    } else {
                        Some(o)
                    },
                    None => None,
                }),
    {
        self.order_manager.cleanup_completed_orders(KEEP_HOURS, now);
        self.order_manager.arbitrage_manager.cleanup_completed_pairs(KEEP_HOURS, now);
        self.risk_state.check_daily_reset(now);
        self.shared_state.persist(now)
    }
}

} // verus!
