//! Which connections the pool opens, and what each of them starts with.
//!
//! The pool opens, for every exchange that is switched on, in the order
//! of the configuration, first the connections of its spot market and
//! then those of its futures market: for every address of the market as
//! many connections as the market asks for.

use vstd::prelude::*;
use vstd::string::*;
use crate::common::text::str_equal;
use crate::engine::adapters::adapter::{adapter_kind, AdapterKind};
use crate::engine::config::{ExchangeConfig, ExchangeEndpointConfig, TradingEngineConfig};
use crate::engine::ws_pool::keepalive::KeepalivePolicy;

verus! {

/// A connection that the pool is to open.
#[derive(Debug)]
pub struct PlannedConnection {
    pub exchange: String,
    /// `spot` or `futures`.
    pub market_type: String,
    pub url: String,
    /// Whose runner serves the connection; none for an exchange that the
    /// pool has no runner for.
    pub runner: Option<AdapterKind>,
}

/// A planned connection, by the characters of its strings.
pub struct PlanView {
    pub exchange: Seq<char>,
    pub market_type: Seq<char>,
    pub url: Seq<char>,
    pub runner: Option<AdapterKind>,
}

impl View for PlannedConnection {
    type V = PlanView;

    open spec fn view(&self) -> PlanView {
        PlanView {
            exchange: self.exchange@,
            market_type: self.market_type@,
            url: self.url@,
            runner: self.runner,
        }
    }
}

/// The planned connections, each by its view.
pub open spec fn views(plan: Seq<PlannedConnection>) -> Seq<PlanView> {
    Seq::new(plan.len(), |i: int| plan[i]@)
}

/// The connection to an address of a market of an exchange.
pub open spec fn connection_to(exchange: Seq<char>, market_type: Seq<char>, url: Seq<char>) -> PlanView {
    PlanView { exchange, market_type, url, runner: adapter_kind(exchange) }
}

/// The connections to the first `upto` addresses of a market: `count`
/// to each, address by address.
pub open spec fn market_plan(
    exchange: Seq<char>,
    market_type: Seq<char>,
    urls: Seq<String>,
    count: nat,
    upto: int,
) -> Seq<PlanView>
    decreases upto,
{
    if upto <= 0 {
        Seq::empty()
    } else {
        market_plan(exchange, market_type, urls, count, upto - 1) + Seq::new(
            count,
            |i: int| connection_to(exchange, market_type, urls[upto - 1]@),
        )
    }
}

/// The connections of a market, if it is switched on.
pub open spec fn endpoint_plan(exchange: Seq<char>, market_type: Seq<char>, market: ExchangeEndpointConfig) -> Seq<
    PlanView,
> {
    if market.enabled {
        market_plan(
            exchange,
            market_type,
            market.ws_endpoints@,
            market.connection_count as nat,
            market.ws_endpoints@.len() as int,
        )
    } else {
        Seq::empty()
    }
}

/// The connections of an exchange, if it is switched on: those of its
/// spot market, then those of its futures market.
pub open spec fn exchange_plan(exchange: Seq<char>, config: ExchangeConfig) -> Seq<PlanView> {
    if config.enabled {
        endpoint_plan(exchange, "spot"@, config.spot) + endpoint_plan(exchange, "futures"@, config.futures)
    } else {
        Seq::empty()
    }
}

/// The connections of the first `upto` exchanges.
pub open spec fn pool_plan(exchanges: Seq<(String, ExchangeConfig)>, upto: int) -> Seq<PlanView>
    decreases upto,
{
    if upto <= 0 {
        Seq::empty()
    } else {
        pool_plan(exchanges, upto - 1) + exchange_plan(exchanges[upto - 1].0@, exchanges[upto - 1].1)
    }
}

/// What a connection sends when it is made, by the exchange whose runner
/// serves it: the subscription to nothing, in the words of the exchange.
pub open spec fn subscription_of(runner: AdapterKind) -> Seq<char> {
    match runner {
        AdapterKind::Binance => "{\"id\":1,\"method\":\"SUBSCRIBE\",\"params\":[]}"@,
        AdapterKind::Okex => "{\"args\":[],\"op\":\"subscribe\"}"@,
        AdapterKind::Bybit => "{\"args\":[],\"op\":\"subscribe\"}"@,
    }
}

/// The keepalive of the exchange whose runner serves a connection.
pub open spec fn keepalive_of(runner: AdapterKind) -> KeepalivePolicy {
    match runner {
        AdapterKind::Binance => KeepalivePolicy::binance_spec(),
        AdapterKind::Okex => KeepalivePolicy::okx_spec(),
        AdapterKind::Bybit => KeepalivePolicy::bybit_spec(),
    }
}

/// Whose runner serves the connections of the exchange of the given
/// name.
pub fn runner_for(exchange: &str) -> (r: Option<AdapterKind>)
    ensures
        r == adapter_kind(exchange@),
{
    if str_equal(exchange, "binance") {
        Some(AdapterKind::Binance)
    } else if str_equal(exchange, "okex") {
        Some(AdapterKind::Okex)
    } else if str_equal(exchange, "bybit") {
        Some(AdapterKind::Bybit)
    } else {
        None
    }
}

/// What a connection sends when it is made.
pub fn subscription_message(runner: AdapterKind) -> (r: &'static str)
    ensures
        r@ == subscription_of(runner),
{
    match runner {
        AdapterKind::Binance => "{\"id\":1,\"method\":\"SUBSCRIBE\",\"params\":[]}",
        AdapterKind::Okex => "{\"args\":[],\"op\":\"subscribe\"}",
        AdapterKind::Bybit => "{\"args\":[],\"op\":\"subscribe\"}",
    }
}

/// The keepalive of the exchange whose runner serves a connection.
pub fn keepalive_policy(runner: AdapterKind) -> (r: KeepalivePolicy)
    ensures
        r == keepalive_of(runner),
{
    match runner {
        AdapterKind::Binance => KeepalivePolicy::binance(),
        AdapterKind::Okex => KeepalivePolicy::okx(),
        AdapterKind::Bybit => KeepalivePolicy::bybit(),
    }
}

/// Adds the connections of a market to the plan.
fn plan_market(plan: &mut Vec<PlannedConnection>, exchange: &str, market_type: &str, market: &ExchangeEndpointConfig)
    ensures
        views(final(plan)@) == views(old(plan)@) + endpoint_plan(exchange@, market_type@, *market),
{
    let ghost before = views(plan@);
    if !market.enabled {
        proof {
            assert(views(plan@) =~= before + Seq::<PlanView>::empty());
        }
        return ;
    }
    let runner = runner_for(exchange);
    let mut i: usize = 0;
    proof {
        assert(views(plan@) =~= before + market_plan(
            exchange@,
            market_type@,
            market.ws_endpoints@,
            market.connection_count as nat,
            0,
        ));
    }
    while i < market.ws_endpoints.len()
        invariant
            i <= market.ws_endpoints@.len(),
            runner == adapter_kind(exchange@),
            views(plan@) == before + market_plan(
                exchange@,
                market_type@,
                market.ws_endpoints@,
                market.connection_count as nat,
                i as int,
            ),
        decreases market.ws_endpoints@.len() - i,
    {
        let ghost so_far = views(plan@);
        let ghost one = connection_to(exchange@, market_type@, market.ws_endpoints@[i as int]@);
        let mut j: usize = 0;
        proof {
            assert(views(plan@) =~= so_far + Seq::new(0, |k: int| one));
        }
        while j < market.connection_count
            invariant
                j <= market.connection_count,
                i < market.ws_endpoints@.len(),
                runner == adapter_kind(exchange@),
                one == connection_to(exchange@, market_type@, market.ws_endpoints@[i as int]@),
                views(plan@) == so_far + Seq::new(j as nat, |k: int| one),
            decreases market.connection_count - j,
        {
            let ghost held = plan@;
            let planned = PlannedConnection {
                exchange: String::from_str(exchange),
                market_type: String::from_str(market_type),
                url: market.ws_endpoints[i].clone(),
                runner,
            };
            plan.push(planned);
            j += 1;
            proof {
                assert(planned@ == one);
                assert(views(plan@) =~= views(held).push(one));
                assert(views(plan@) =~= so_far + Seq::new(j as nat, |k: int| one));
            }
        }
        i += 1;
        proof {
            assert(Seq::new(market.connection_count as nat, |k: int| one) =~= Seq::new(
                market.connection_count as nat,
                |k: int| connection_to(exchange@, market_type@, market.ws_endpoints@[i - 1]@),
            ));
            assert(views(plan@) =~= before + market_plan(
                exchange@,
                market_type@,
                market.ws_endpoints@,
                market.connection_count as nat,
                i as int,
            ));
        }
    }
}

/// The connections that the pool opens, in the order in which it opens
/// them.
pub fn planned_connections(config: &TradingEngineConfig) -> (r: Vec<PlannedConnection>)
    ensures
        views(r@) == pool_plan(config.exchanges@, config.exchanges@.len() as int),
{
    let mut plan: Vec<PlannedConnection> = Vec::new();
    let mut i: usize = 0;
    proof {
        assert(views(plan@) =~= pool_plan(config.exchanges@, 0));
    }
    while i < config.exchanges.len()
        invariant
            i <= config.exchanges@.len(),
            views(plan@) == pool_plan(config.exchanges@, i as int),
        decreases config.exchanges@.len() - i,
    {
        let ghost before = views(plan@);
        let entry = &config.exchanges[i];
        if entry.1.enabled {
            plan_market(&mut plan, entry.0.as_str(), "spot", &entry.1.spot);
            plan_market(&mut plan, entry.0.as_str(), "futures", &entry.1.futures);
            proof {
                assert(views(plan@) =~= before + exchange_plan(entry.0@, entry.1));
            }
        } else {
            proof {
                assert(views(plan@) =~= before + exchange_plan(entry.0@, entry.1));
            }
        }
        i += 1;
    }
    plan
}

} // verus!
