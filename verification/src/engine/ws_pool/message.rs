//! A message as the pool hands it on.

use vstd::prelude::*;

verus! {

#[derive(Debug)]
pub struct WsMessage {
    pub id: u128,
    pub exchange: String,
    pub market_type: String,
    pub connection_id: u128,
    /// Milliseconds since the Unix epoch.
    pub timestamp: i64,
    pub data: Vec<u8>,
}

impl WsMessage {
    /// The message with the given id, received at `now`.
    pub fn new(id: u128, exchange: String, market_type: String, connection_id: u128, data: Vec<u8>, now: i64) -> (r:
        WsMessage)
        ensures
            r == (WsMessage { id, exchange, market_type, connection_id, timestamp: now, data }),
    {
        WsMessage { id, exchange, market_type, connection_id, timestamp: now, data }
    }
}

} // verus!
