//! The settings that the bridge is started with, and the options of its
//! consumer-group subscription.

use vstd::prelude::*;

verus! {

/// Broker address used when none is configured.
pub const DEFAULT_BROKER: &'static str = "kafka:9092";

/// Topic used when none is configured.
pub const DEFAULT_TOPIC: &'static str = "test-topic";

/// Store endpoint used when none is configured.
pub const DEFAULT_STORE_ENDPOINT: &'static str = "http://dynamodb:8000";

/// Destination table used when none is configured.
pub const DEFAULT_TABLE: &'static str = "KafkaMessages";

/// Consumer group that the bridge joins.
pub const CONSUMER_GROUP: &'static str = "rust-consumer-group";

/// Everything the bridge needs to know to start, read once.
pub struct Settings {
    pub broker: String,
    pub topic: String,
    pub store_endpoint: String,
    pub table: String,
}

/// The configured value where there is one, else the default.
pub open spec fn or_default(given: Option<String>, default: Seq<char>) -> Seq<char> {
    match given {
        Some(s) => s@,
        None => default,
    }
}

fn pick(given: Option<String>, default: &str) -> (r: String)
    ensures
        r@ == or_default(given, default@),
{
    match given {
        Some(s) => s,
        None => default.to_string(),
    }
}

impl Settings {
    /// Settings from the values that were looked up; each missing one takes
    /// its default.
    pub fn resolve(
        broker: Option<String>,
        topic: Option<String>,
        store_endpoint: Option<String>,
        table: Option<String>,
    ) -> (r: Settings)
        ensures
            r.broker@ == or_default(broker, DEFAULT_BROKER@),
            r.topic@ == or_default(topic, DEFAULT_TOPIC@),
            r.store_endpoint@ == or_default(store_endpoint, DEFAULT_STORE_ENDPOINT@),
            r.table@ == or_default(table, DEFAULT_TABLE@),
    {
        Settings {
            broker: pick(broker, DEFAULT_BROKER),
            topic: pick(topic, DEFAULT_TOPIC),
            store_endpoint: pick(store_endpoint, DEFAULT_STORE_ENDPOINT),
            table: pick(table, DEFAULT_TABLE),
        }
    }
}

} // verus!
