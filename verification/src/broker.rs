//! What the broker is asked for: the connection bounds and the subscription
//! list. Connecting and delivering messages are the broker client's own
//! business; this module only fixes what it is configured with.

use vstd::prelude::*;

verus! {

/// The delivery guarantee asked of the broker: messages may be lost, never
/// redelivered. Periodic telemetry tolerates loss.
#[derive(Debug, Clone, Copy, PartialEq, Eq, Structural)]
pub enum DeliveryLevel {
    AtMostOnce,
}

/// Seconds between keep-alive probes on the broker connection.
pub const KEEP_ALIVE_SECS: u16 = 5;

/// How many reconnect attempts the broker client is allowed.
pub const RECONNECT_ATTEMPTS: u16 = 3;

/// The bounds a broker connection is opened with.
#[derive(Debug)]
pub struct BrokerConfig {
    pub client_id: String,
    pub broker: String,
    pub keep_alive_secs: u16,
    pub reconnect_attempts: u16,
}

impl BrokerConfig {
    /// A configuration with the fixed keep-alive and reconnect bounds.
    pub fn new(client_id: String, broker: String) -> (c: BrokerConfig)
        ensures
            c.client_id == client_id,
            c.broker == broker,
            c.keep_alive_secs == KEEP_ALIVE_SECS,
            c.reconnect_attempts == RECONNECT_ATTEMPTS,
    {
        BrokerConfig {
            client_id,
            broker,
            keep_alive_secs: KEEP_ALIVE_SECS,
            reconnect_attempts: RECONNECT_ATTEMPTS,
        }
    }
}

/// One topic subscription at a delivery level.
#[derive(Debug)]
pub struct Subscription {
    pub topic: String,
    pub level: DeliveryLevel,
}

/// Pair every discovered topic with the at-most-once delivery level, in
/// order. Zero topics give zero subscriptions: the system then idles.
pub fn make_subscriptions(topics: &Vec<String>) -> (subs: Vec<Subscription>)
    ensures
        subs@.len() == topics@.len(),
        forall|i: int|
            0 <= i < subs@.len() ==> subs@[i].topic == topics@[i] && subs@[i].level
                == DeliveryLevel::AtMostOnce,
{
    let n = topics.len();
    let mut subs: Vec<Subscription> = Vec::new();
    let mut i: usize = 0;
    while i < n
        invariant
            i <= n,
            n == topics@.len(),
            subs@.len() == i,
            forall|k: int|
                0 <= k < i ==> subs@[k].topic == topics@[k] && subs@[k].level
                    == DeliveryLevel::AtMostOnce,
        decreases n - i,
    {
        subs.push(Subscription { topic: topics[i].clone(), level: DeliveryLevel::AtMostOnce });
        i = i + 1;
    }
    subs
}

} // verus!
