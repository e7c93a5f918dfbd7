//! Application settings, their defaults, and the publisher and subscriber
//! configurations drawn from them.
use vstd::prelude::*;
use crate::config::{KafkaConsumerConfig, KafkaProducerConfig};

verus! {

/// Settings of the application itself.
#[derive(Debug, Clone, Copy, PartialEq, Eq, Structural)]
pub struct AppSettings {
    pub port: u16,
}

/// Topic names, one per purpose.
#[derive(Debug, Clone)]
pub struct TopicsConfig {
    pub prices: String,
    pub subscription_commands: String,
    pub unsubscription_commands: String,
}

impl Default for TopicsConfig {
    fn default() -> (r: Self)
        ensures
            r.prices@ == "crypto-listener-prices"@,
            r.subscription_commands@ == "crypto-listener-subscription-commands"@,
            r.unsubscription_commands@ == "crypto-listener-unsubscription-commands"@,
    {
        TopicsConfig {
            prices: "crypto-listener-prices".to_owned(),
            subscription_commands: "crypto-listener-subscription-commands".to_owned(),
            unsubscription_commands: "crypto-listener-unsubscription-commands".to_owned(),
        }
    }
}

/// The single-publisher broker settings of earlier configurations.
#[derive(Debug, Clone)]
pub struct KafkaSettings {
    pub brokers: String,
    pub topic: String,
    pub schema_registry_url: Option<String>,
    pub publish_queue_capacity: Option<usize>,
    pub max_retry_attempts: Option<u32>,
    pub retry_backoff_ms: Option<u64>,
}

impl Default for KafkaSettings {
    fn default() -> (r: Self)
        ensures
            r.brokers@ == "kafka:9092"@,
            r.topic@ == "crypto-listener-prices"@,
            r.schema_registry_url is None,
            r.publish_queue_capacity == Some(1000usize),
            r.max_retry_attempts == Some(5u32),
            r.retry_backoff_ms == Some(500u64),
    {
        KafkaSettings {
            brokers: "kafka:9092".to_owned(),
            topic: "crypto-listener-prices".to_owned(),
            schema_registry_url: None,
            publish_queue_capacity: Some(1000),
            max_retry_attempts: Some(5),
            retry_backoff_ms: Some(500),
        }
    }
}

/// A named publisher's settings.
#[derive(Debug, Clone)]
pub struct KafkaProducerSettings {
    pub brokers: String,
    pub topic: String,
    pub client_id: Option<String>,
    pub queue_capacity: Option<usize>,
    pub max_retry_attempts: Option<u32>,
    pub retry_backoff_ms: Option<u64>,
    pub compression: Option<String>,
    pub batch_size: Option<usize>,
    pub linger_ms: Option<u64>,
    pub acks: Option<String>,
    pub idempotence: Option<bool>,
}

/// A named subscriber's settings.
#[derive(Debug, Clone)]
pub struct KafkaConsumerSettings {
    pub brokers: String,
    pub topics: Vec<String>,
    pub group_id: String,
    pub client_id: Option<String>,
    pub auto_offset_reset: Option<String>,
    pub enable_auto_commit: Option<bool>,
    pub auto_commit_interval_ms: Option<u64>,
    pub session_timeout_ms: Option<u64>,
    pub max_poll_records: Option<usize>,
}

/// Database connection settings.
#[derive(Debug, Clone, Copy, PartialEq, Eq, Structural)]
pub struct DatabaseSettings {
    pub max_connect_attempts: Option<u32>,
    pub connect_retry_delay_ms: Option<u64>,
}

impl Default for AppSettings {
    fn default() -> (r: Self)
        ensures
            r.port == 8080,
    {
        AppSettings { port: 8080 }
    }
}

impl Default for DatabaseSettings {
    fn default() -> (r: Self)
        ensures
            r.max_connect_attempts == Some(5u32),
            r.connect_retry_delay_ms == Some(2000u64),
    {
        DatabaseSettings { max_connect_attempts: Some(5), connect_retry_delay_ms: Some(2000) }
    }
}

fn copy_opt(o: &Option<String>) -> (r: Option<String>)
    ensures
        r == *o,
{
    match o {
        Some(s) => Some(s.clone()),
        None => None,
    }
}

fn copy_strings(v: &Vec<String>) -> (r: Vec<String>)
    ensures
        r@ == v@,
{
    let mut r: Vec<String> = Vec::new();
    let mut i: usize = 0;
    while i < v.len()
        invariant
            i <= v.len(),
            r@ == v@.subrange(0, i as int),
        decreases v.len() - i,
    {
        r.push(v[i].clone());
        i = i + 1;
    }
    assert(v@.subrange(0, v.len() as int) =~= v@);
    r
}

impl KafkaProducerSettings {
    /// The settings of the prices publisher when none are configured.
    pub fn prices_default() -> (r: Self)
        ensures
            r.brokers@ == "kafka:9092"@,
            r.topic@ == "crypto-listener-prices"@,
            r.client_id matches Some(c) && c@ == "crypto-listener-price-producer"@,
            r.queue_capacity == Some(1000usize),
            r.max_retry_attempts == Some(5u32),
            r.retry_backoff_ms == Some(500u64),
            r.compression matches Some(c) && c@ == "snappy"@,
            r.batch_size == Some(16384usize),
            r.linger_ms == Some(10u64),
            r.acks matches Some(a) && a@ == "all"@,
            r.idempotence == Some(true),
    {
        KafkaProducerSettings {
            brokers: "kafka:9092".to_owned(),
            topic: "crypto-listener-prices".to_owned(),
            client_id: Some("crypto-listener-price-producer".to_owned()),
            queue_capacity: Some(1000),
            max_retry_attempts: Some(5),
            retry_backoff_ms: Some(500),
            compression: Some("snappy".to_owned()),
            batch_size: Some(16384),
            linger_ms: Some(10),
            acks: Some("all".to_owned()),
            idempotence: Some(true),
        }
    }

    /// The publisher configuration these settings describe, field for field.
    pub fn to_producer_config(&self) -> (r: KafkaProducerConfig)
        ensures
            r == (KafkaProducerConfig {
                brokers: self.brokers,
                topic: self.topic,
                client_id: self.client_id,
                queue_capacity: self.queue_capacity,
                max_retry_attempts: self.max_retry_attempts,
                retry_backoff_ms: self.retry_backoff_ms,
                compression: self.compression,
                batch_size: self.batch_size,
                linger_ms: self.linger_ms,
                acks: self.acks,
                idempotence: self.idempotence,
            }),
    {
        KafkaProducerConfig {
            brokers: self.brokers.clone(),
            topic: self.topic.clone(),
            client_id: copy_opt(&self.client_id),
            queue_capacity: self.queue_capacity,
            max_retry_attempts: self.max_retry_attempts,
            retry_backoff_ms: self.retry_backoff_ms,
            compression: copy_opt(&self.compression),
            batch_size: self.batch_size,
            linger_ms: self.linger_ms,
            acks: copy_opt(&self.acks),
            idempotence: self.idempotence,
        }
    }
}

impl KafkaConsumerSettings {
    /// The subscriber configuration these settings describe, field for field.
    pub fn to_consumer_config(&self) -> (r: KafkaConsumerConfig)
        ensures
            r.brokers == self.brokers,
            r.topics@ == self.topics@,
            r.group_id == self.group_id,
            r.client_id == self.client_id,
            r.auto_offset_reset == self.auto_offset_reset,
            r.enable_auto_commit == self.enable_auto_commit,
            r.auto_commit_interval_ms == self.auto_commit_interval_ms,
            r.session_timeout_ms == self.session_timeout_ms,
            r.max_poll_records == self.max_poll_records,
    {
        KafkaConsumerConfig {
            brokers: self.brokers.clone(),
            topics: copy_strings(&self.topics),
            group_id: self.group_id.clone(),
            client_id: copy_opt(&self.client_id),
            auto_offset_reset: copy_opt(&self.auto_offset_reset),
            enable_auto_commit: self.enable_auto_commit,
            auto_commit_interval_ms: self.auto_commit_interval_ms,
            session_timeout_ms: self.session_timeout_ms,
            max_poll_records: self.max_poll_records,
        }
    }
}

impl KafkaSettings {
    /// The publisher configuration of the earlier single-publisher settings:
    /// these brokers and retry settings, the prices topic, a fixed client
    /// identity, snappy compression, acknowledgment by all replicas and
    /// idempotence on.
    pub fn legacy_producer_config(&self, topics: &TopicsConfig) -> (r: KafkaProducerConfig)
        ensures
            r.brokers == self.brokers,
            r.topic == topics.prices,
            r.client_id matches Some(c) && c@ == "crypto-listener-legacy"@,
            r.queue_capacity == self.publish_queue_capacity,
            r.max_retry_attempts == self.max_retry_attempts,
            r.retry_backoff_ms == self.retry_backoff_ms,
            r.compression matches Some(c) && c@ == "snappy"@,
            r.batch_size is None,
            r.linger_ms is None,
            r.acks matches Some(a) && a@ == "all"@,
            r.idempotence == Some(true),
    {
        KafkaProducerConfig {
            brokers: self.brokers.clone(),
            topic: topics.prices.clone(),
            client_id: Some("crypto-listener-legacy".to_owned()),
            queue_capacity: self.publish_queue_capacity,
            max_retry_attempts: self.max_retry_attempts,
            retry_backoff_ms: self.retry_backoff_ms,
            compression: Some("snappy".to_owned()),
            batch_size: None,
            linger_ms: None,
            acks: Some("all".to_owned()),
            idempotence: Some(true),
        }
    }
}

/// The first candidate that is present and not empty.
pub open spec fn first_non_empty_spec(values: Seq<Option<String>>) -> Option<String>
    decreases values.len(),
{
    if values.len() == 0 {
        None
    } else if values[0] is Some && values[0]->0@.len() > 0 {
        values[0]
    } else {
        first_non_empty_spec(values.drop_first())
    }
}

/// Picks, among candidate values listed from the most to the least preferred
/// name, the first one that is present and not empty.
pub fn first_non_empty(values: &Vec<Option<String>>) -> (r: Option<String>)
    ensures
        r == first_non_empty_spec(values@),
{
    let mut i: usize = 0;
    assert(values@.subrange(0, values@.len() as int) =~= values@);
    while i < values.len()
        invariant
            i <= values.len(),
            first_non_empty_spec(values@) == first_non_empty_spec(values@.subrange(
                i as int,
                values@.len() as int,
            )),
        decreases values.len() - i,
    {
        proof {
            let tail = values@.subrange(i as int, values@.len() as int);
            assert(tail.drop_first() =~= values@.subrange(i + 1, values@.len() as int));
        }
        match &values[i] {
            Some(s) => {
                if !s.as_str().is_empty() {
                    return Some(s.clone());
                }
            },
            None => {},
        }
        i = i + 1;
    }
    None
}

} // verus!
