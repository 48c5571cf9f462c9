//! The configuration of the collector.

use vstd::prelude::*;
use vstd::string::*;

verus! {

/// Why the configuration could not be loaded.
#[derive(Debug, Clone, Copy, PartialEq, Eq, Structural)]
pub enum LoadError {
    /// The source of the configuration cannot be read.
    Unreadable,
}

#[derive(Debug)]
pub struct Config {
    pub iceoryx_topics: Vec<String>,
    pub zmq_endpoints: Vec<String>,
    pub output_topic: String,
}

impl Config {
    /// The configuration is the usual one: the signals of adaptive spread
    /// and of funding rate, two local endpoints, and the topic of trading
    /// events.
    pub open spec fn is_default(self) -> bool {
        &&& self.iceoryx_topics@.len() == 2
        &&& self.iceoryx_topics@[0]@ == "signals/adaptive_spread"@
        &&& self.iceoryx_topics@[1]@ == "signals/funding_rate"@
        &&& self.zmq_endpoints@.len() == 2
        &&& self.zmq_endpoints@[0]@ == "tcp://127.0.0.1:5555"@
        &&& self.zmq_endpoints@[1]@ == "tcp://127.0.0.1:5556"@
        &&& self.output_topic@ == "events/trading"@
    }

    /// The configuration of the collector. There is no source to read it
    /// from yet, so it is the usual one, and loading never fails.
    pub fn load() -> (r: Result<Config, LoadError>)
        ensures
            r matches Ok(config) && config.is_default(),
    {
        Ok(Config::default())
    }
}

impl Default for Config {
    fn default() -> (r: Config)
        ensures
            r.is_default(),
    {
        let mut iceoryx_topics: Vec<String> = Vec::new();
        iceoryx_topics.push(String::from_str("signals/adaptive_spread"));
        iceoryx_topics.push(String::from_str("signals/funding_rate"));
        let mut zmq_endpoints: Vec<String> = Vec::new();
        zmq_endpoints.push(String::from_str("tcp://127.0.0.1:5555"));
        zmq_endpoints.push(String::from_str("tcp://127.0.0.1:5556"));
        Config { iceoryx_topics, zmq_endpoints, output_topic: String::from_str("events/trading") }
    }
}

} // verus!
