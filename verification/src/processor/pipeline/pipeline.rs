//! The two pipelines: what a signal goes through before it becomes an
//! order, and what an execution report goes through after the exchange
//! has answered.
//!
//! A step that stops the pre-pipeline leaves every later step without
//! effect. The steps of the post-pipeline never stop it: a step that
//! cannot be computed is noted and passed over.

use vstd::prelude::*;
use crate::common::decimal::Decimal;
use crate::common::types::{ExecutionReport, Signal, SignalType};
use crate::processor::order::order::Order;
use crate::processor::order::order_manager::{symbol_key, symbol_text};
use crate::processor::pipeline::shared_state::{
    position_updated, position_valued, quota_taken, RiskError, SharedState, PERSIST_INTERVAL_MS,
};
use crate::processor::risk_control::risk_rules::{
    chain_verdict, quantity_of, RiskRuleChain, RuleError,
};

verus! {

/// Chaining of steps: `x.pipe(f)` is `f(x)`.
pub trait Pipeline<T> {
    /// Hands the value to `f`.
    fn pipe<U, F: FnOnce(T) -> U>(self, f: F) -> (r: U)
        requires
            f.requires((self.piped(),)),
        ensures
            f.ensures((self.piped(),), r),
    ;

    /// The value that is handed on.
    spec fn piped(self) -> T;
}

impl<T> Pipeline<T> for T {
    open spec fn piped(self) -> T {
        self
    }

    fn pipe<U, F: FnOnce(T) -> U>(self, f: F) -> (r: U) {
        f(self)
    }
}

/// What the pre-pipeline works on.
pub struct PreProcessContext {
    pub signal: Signal,
    /// Cleared by the step that vetoes the signal.
    pub should_continue: bool,
    pub priority: u8,
    pub order: Option<Order>,
}

/// What the post-pipeline works on.
pub struct PostProcessContext {
    pub report: ExecutionReport,
    pub should_continue: bool,
}

/// The oldest signal that the pre-pipeline takes, in milliseconds.
pub const MAX_SIGNAL_AGE_MS: i64 = 100;

/// The priority of the orders of a signal kind: arbitrage first, then
/// hedges, then everything else.
pub open spec fn priority_for(kind: SignalType) -> u8 {
    match kind {
        SignalType::Arbitrage => 10,
        SignalType::Hedge => 8,
        _ => 5,
    }
}

impl PreProcessContext {
    /// The context of a signal that no step has seen yet.
    pub fn new(signal: Signal) -> (r: PreProcessContext)
        ensures
            r.signal == signal,
            r.should_continue,
            r.priority == 5,
            r.order is None,
    {
        PreProcessContext { signal, should_continue: true, priority: 5, order: None }
    }

    /// The context, stopped.
    pub fn stop(self) -> (r: PreProcessContext)
        ensures
            r == (PreProcessContext { should_continue: false, ..self }),
    {
        let mut ctx = self;
        ctx.should_continue = false;
        ctx
    }

    /// The context with another priority.
    pub fn with_priority(self, priority: u8) -> (r: PreProcessContext)
        ensures
            r == (PreProcessContext { priority, ..self }),
    {
        let mut ctx = self;
        ctx.priority = priority;
        ctx
    }

    /// The context with an order.
    pub fn with_order(self, order: Order) -> (r: PreProcessContext)
        ensures
            r == (PreProcessContext { order: Some(order), ..self }),
    {
        let mut ctx = self;
        ctx.order = Some(order);
        ctx
    }
}

impl PostProcessContext {
    /// The context of a report that no step has seen yet.
    pub fn new(report: ExecutionReport) -> (r: PostProcessContext)
        ensures
            r.report == report,
            r.should_continue,
    {
        PostProcessContext { report, should_continue: true }
    }

    /// The context, stopped.
    pub fn stop(self) -> (r: PostProcessContext)
        ensures
            r == (PostProcessContext { should_continue: false, ..self }),
    {
        let mut ctx = self;
        ctx.should_continue = false;
        ctx
    }
}

/// Stops a signal that is older than `max_age_ms`.
pub fn check_signal_age(ctx: PreProcessContext, max_age_ms: i64, now: i64) -> (r: PreProcessContext)
    ensures
        r == (PreProcessContext {
            should_continue: ctx.should_continue && now - ctx.signal.timestamp <= max_age_ms,
            ..ctx
        }),
{
    if !ctx.should_continue {
        return ctx;
    }
    let age: i128 = now as i128 - ctx.signal.timestamp as i128;
    if age > max_age_ms as i128 {
        return ctx.stop();
    }
    ctx
}

/// Stops a signal that the chain of risk rules does not pass: one that
/// it vetoes, and one that it cannot decide.
pub fn check_risk_control(ctx: PreProcessContext, state: &SharedState, chain: &RiskRuleChain, now: i64) -> (r:
    PreProcessContext)
    requires
        ctx.signal.wf(),
        state.wf(),
        chain.wf(),
    ensures
        r == (PreProcessContext {
            should_continue: ctx.should_continue && chain_verdict(
                chain.rules@,
                ctx.signal,
                *state,
                now,
                0,
            ) == Ok::<bool, RuleError>(true),
            ..ctx
        }),
{
    if !ctx.should_continue {
        return ctx;
    }
    match chain.check_all(&ctx.signal, state, now) {
        Ok(true) => ctx,
        _ => ctx.stop(),
    }
}

/// Stops a signal that would take the position of its symbol beyond the
/// cap.
pub fn check_position_limit(ctx: PreProcessContext, state: &SharedState) -> (r: PreProcessContext)
    requires
        ctx.signal.wf(),
        state.wf(),
    ensures
        r == (PreProcessContext {
            should_continue: ctx.should_continue && state.position_check_spec(
                ctx.signal.symbol@,
                quantity_of(ctx.signal),
            ),
            ..ctx
        }),
{
    if !ctx.should_continue {
        return ctx;
    }
    let quantity = match ctx.signal.quantity {
        Some(q) => q,
        None => Decimal::zero(),
    };
    if !state.position_check(ctx.signal.symbol.as_str(), quantity) {
        return ctx.stop();
    }
    ctx
}

/// Makes the order that the signal asks for.
pub fn construct_order(ctx: PreProcessContext, now: i64) -> (r: PreProcessContext)
    requires
        ctx.signal.wf(),
    ensures
        r.signal == ctx.signal,
        r.should_continue == ctx.should_continue,
        r.priority == ctx.priority,
        if ctx.should_continue {
            r.order matches Some(o) && o.wf() && o.is_fresh_from(ctx.signal, now)
        } else {
            r.order == ctx.order
        },
{
    if !ctx.should_continue {
        return ctx;
    }
    let order = Order::from_signal(&ctx.signal, now);
    ctx.with_order(order)
}

/// Gives context and order the priority of the signal kind.
pub fn assign_priority(ctx: PreProcessContext) -> (r: PreProcessContext)
    ensures
        r == if ctx.should_continue {
            PreProcessContext {
                priority: priority_for(ctx.signal.signal_type),
                order: match ctx.order {
                    Some(o) => Some(Order { priority: priority_for(ctx.signal.signal_type), ..o }),
                    None => None,
                },
                ..ctx
            }
        } else {
            ctx
        },
{
    if !ctx.should_continue {
        return ctx;
    }
    let priority: u8 = match ctx.signal.signal_type {
        SignalType::Arbitrage => 10,
        SignalType::Hedge => 8,
        _ => 5,
    };
    let mut ctx = ctx;
    ctx.priority = priority;
    ctx.order = match ctx.order {
        Some(o) => {
            let mut o = o;
            o.priority = priority;
            Some(o)
        },
        None => None,
    };
    ctx
}

/// Whether a signal passes the pre-pipeline: it is fresh enough, the
/// chain of risk rules passes it, and the position of its symbol stays
/// within the cap.
pub open spec fn passes(signal: Signal, state: SharedState, chain: RiskRuleChain, max_age_ms: i64, now: i64) -> bool {
    &&& now - signal.timestamp <= max_age_ms
    &&& chain_verdict(chain.rules@, signal, state, now, 0) == Ok::<bool, RuleError>(true)
    &&& state.position_check_spec(signal.symbol@, quantity_of(signal))
}

/// Runs a signal through the pre-pipeline: the check of its age, the risk
/// rules, the position limit, the making of the order, the priority.
/// There is an order exactly when the signal passes and the context has
/// not been stopped before; it is the order that the signal asks for, at
/// the priority of the signal kind. Nothing is changed either way.
pub fn execute_pre_pipeline(ctx: PreProcessContext, state: &SharedState, chain: &RiskRuleChain, max_age_ms: i64, now: i64) -> (r:
    Option<Order>)
    requires
        ctx.signal.wf(),
        state.wf(),
        chain.wf(),
    ensures
        r is Some <==> ctx.should_continue && passes(ctx.signal, *state, *chain, max_age_ms, now),
        r matches Some(o) ==> o.wf() && o.priority == priority_for(ctx.signal.signal_type) && (Order {
            priority: 5,
            ..o
        }).is_fresh_from(ctx.signal, now),
{
    let ctx = check_signal_age(ctx, max_age_ms, now);
    let ctx = check_risk_control(ctx, state, chain, now);
    let ctx = check_position_limit(ctx, state);
    let ctx = construct_order(ctx, now);
    let ctx = assign_priority(ctx);
    if ctx.should_continue {
        ctx.order
    } else {
        None
    }
}

/// What the post-pipeline did.
#[derive(Debug, Clone, Copy, PartialEq, Eq, Structural)]
pub struct PostProcessReport {
    /// The position was updated; else the figures could not be computed.
    pub position_updated: bool,
    /// The quota was updated; else the figures could not be computed.
    pub quota_updated: bool,
    /// The position of the symbol has reached the size from which it
    /// needs a hedge.
    pub hedge_needed: bool,
    /// The position was valued; else the value could not be computed.
    pub pnl_calculated: bool,
    /// A snapshot of the state is due.
    pub persist_due: bool,
}

/// The outcome of a step that could, or could not, be computed.
pub open spec fn outcome(computed: bool) -> Result<(), RiskError> {
    if computed {
        Ok(())
    } else {
        Err(RiskError::Arithmetic)
    }
}

/// Takes the reported execution into the position of its symbol.
pub fn update_position(ctx: &PostProcessContext, state: &mut SharedState, now: i64) -> (r: bool)
    requires
        old(state).wf(),
        ctx.report.wf(),
    ensures
        final(state).wf(),
        if ctx.should_continue {
            position_updated(*old(state), *final(state), ctx.report, now, outcome(r))
        } else {
            !r && *final(state) == *old(state)
        },
{
    if !ctx.should_continue {
        return false;
    }
    state.update_position(&ctx.report, now).is_ok()
}

/// Takes the reported execution into the quota of its symbol.
pub fn update_risk_quota(ctx: &PostProcessContext, state: &mut SharedState, now: i64) -> (r: bool)
    requires
        old(state).wf(),
        ctx.report.wf(),
    ensures
        final(state).wf(),
        if ctx.should_continue {
            quota_taken(*old(state), *final(state), ctx.report, now, outcome(r))
        } else {
            !r && *final(state) == *old(state)
        },
{
    if !ctx.should_continue {
        return false;
    }
    state.update_risk_quota(&ctx.report, now).is_ok()
}

/// Says whether the position of the reported symbol needs a hedge.
pub fn check_hedge_trigger(ctx: &PostProcessContext, state: &SharedState) -> (r: bool)
    requires
        state.wf(),
    ensures
        r == (ctx.should_continue && state.should_trigger_hedge_spec(symbol_text(ctx.report.symbol))),
{
    if !ctx.should_continue {
        return false;
    }
    state.should_trigger_hedge(symbol_key(ctx.report.symbol).as_str())
}

/// Values the position of the reported symbol at the reported price.
pub fn calculate_pnl(ctx: &PostProcessContext, state: &mut SharedState) -> (r: bool)
    requires
        old(state).wf(),
        ctx.report.wf(),
    ensures
        final(state).wf(),
        if ctx.should_continue {
            position_valued(*old(state), *final(state), ctx.report, outcome(r))
        } else {
            !r && *final(state) == *old(state)
        },
{
    if !ctx.should_continue {
        return false;
    }
    state.calculate_pnl(&ctx.report).is_ok()
}

/// Says whether a snapshot of the state is due, and notes it.
pub fn persist_state(ctx: &PostProcessContext, state: &mut SharedState, now: i64) -> (r: bool)
    ensures
        r == (ctx.should_continue && now - old(state).last_persist_time > PERSIST_INTERVAL_MS),
        *final(state) == (SharedState {
            last_persist_time: if r {
                now
            } else {
                old(state).last_persist_time
            },
            ..*old(state)
        }),
{
    if !ctx.should_continue {
        return false;
    }
    state.persist(now)
}

/// What the post-pipeline makes of a report, step by step: the position
/// is updated, then the quota, then the need for a hedge is looked at,
/// then the position is valued, then the snapshot is noted, each step on
/// the state that the step before left.
pub open spec fn accounted(
    before: SharedState,
    positioned: SharedState,
    rationed: SharedState,
    valued: SharedState,
    after: SharedState,
    report: ExecutionReport,
    now: i64,
    r: PostProcessReport,
) -> bool {
    &&& position_updated(before, positioned, report, now, outcome(r.position_updated))
    &&& quota_taken(positioned, rationed, report, now, outcome(r.quota_updated))
    &&& r.hedge_needed == rationed.should_trigger_hedge_spec(symbol_text(report.symbol))
    &&& position_valued(rationed, valued, report, outcome(r.pnl_calculated))
    &&& r.persist_due == (now - valued.last_persist_time > PERSIST_INTERVAL_MS)
    &&& after == (SharedState {
        last_persist_time: if r.persist_due {
            now
        } else {
            valued.last_persist_time
        },
        ..valued
    })
}

/// What the post-pipeline makes of a report.
pub open spec fn post_processed(
    before: SharedState,
    after: SharedState,
    report: ExecutionReport,
    now: i64,
    r: PostProcessReport,
) -> bool {
    exists|positioned: SharedState, rationed: SharedState, valued: SharedState| #[trigger]
        accounted(before, positioned, rationed, valued, after, report, now, r)
}

/// Runs an execution report through the post-pipeline: position, quota,
/// hedge trigger, valuation, snapshot. A step that cannot be computed
/// changes nothing and does not keep the later steps from running; a
/// context that has been stopped before changes nothing at all. The total
/// exposure that is left is that of the positions, if the position was
/// updated.
pub fn execute_post_pipeline(ctx: PostProcessContext, state: &mut SharedState, now: i64) -> (r:
    PostProcessReport)
    requires
        old(state).wf(),
        ctx.report.wf(),
    ensures
        final(state).wf(),
        if ctx.should_continue {
            post_processed(*old(state), *final(state), ctx.report, now, r)
        } else {
            *final(state) == *old(state) && r == (PostProcessReport {
                position_updated: false,
                quota_updated: false,
                hedge_needed: false,
                pnl_calculated: false,
                persist_due: false,
            })
        },
        r.position_updated ==> final(state).exposure_matches(),
        !r.position_updated ==> final(state).total_exposure == old(state).total_exposure
            && crate::processor::pipeline::shared_state::holdings_of(final(state).positions.values@)
            == crate::processor::pipeline::shared_state::holdings_of(old(state).positions.values@),
{
    let position_ok = update_position(&ctx, state, now);
    let ghost positioned = *state;
    let quota_ok = update_risk_quota(&ctx, state, now);
    let ghost rationed = *state;
    let hedge_needed = check_hedge_trigger(&ctx, state);
    let pnl_ok = calculate_pnl(&ctx, state);
    let ghost valued = *state;
    let persist_due = persist_state(&ctx, state, now);
    let r = PostProcessReport {
        position_updated: position_ok,
        quota_updated: quota_ok,
        hedge_needed,
        pnl_calculated: pnl_ok,
        persist_due,
    };
    proof {
        if ctx.should_continue {
            assert(accounted(*old(state), positioned, rationed, valued, *state, ctx.report, now, r));
        }
    }
    r
}

} // verus!
