//! The configuration of the trading engine.

use vstd::prelude::*;

verus! {

/// One exchange: its endpoints and the keys of the account.
#[derive(Debug)]
pub struct ExchangeConfig {
    pub enabled: bool,
    pub spot: ExchangeEndpointConfig,
    pub futures: ExchangeEndpointConfig,
    pub api_key: String,
    pub secret_key: String,
}

/// The endpoints of one market of an exchange.
#[derive(Debug)]
pub struct ExchangeEndpointConfig {
    pub enabled: bool,
    pub ws_endpoints: Vec<String>,
    pub rest_endpoint: String,
    pub connection_count: usize,
}

/// The pool of connections.
#[derive(Debug, Clone, Copy, PartialEq, Eq, Structural)]
pub struct WsPoolConfig {
    pub max_connections_per_exchange: usize,
    pub heartbeat_interval_ms: u64,
    pub reconnect_delay_ms: u64,
    pub max_reconnect_attempts: usize,
    pub health_check_interval_ms: u64,
    pub message_buffer_size: usize,
}

/// The executor.
#[derive(Debug)]
pub struct ExecutorConfig {
    /// How long a send may take, in milliseconds.
    pub order_timeout_ms: u64,
    pub max_retry_attempts: usize,
    /// To how many connections an order goes out at once.
    pub concurrent_send_count: usize,
    /// The prefix of the client order ids that the executor mints.
    pub idempotent_key_prefix: String,
}

/// The bus.
#[derive(Debug)]
pub struct IpcConfig {
    pub service_name: String,
    pub input_topic: String,
    pub output_topic: String,
    pub buffer_size: usize,
}

/// The engine as a whole. The exchanges stand in the order in which they
/// are served, each under its name.
#[derive(Debug)]
pub struct TradingEngineConfig {
    pub exchanges: Vec<(String, ExchangeConfig)>,
    pub ws_pool: WsPoolConfig,
    pub executor: ExecutorConfig,
    pub ipc: IpcConfig,
}

} // verus!
