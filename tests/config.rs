use std::time::Duration;

use project_struct_base::config::{KafkaConsumerConfig, KafkaProducerConfig};

fn producer() -> KafkaProducerConfig {
    KafkaProducerConfig {
        brokers: "localhost:9092".to_string(),
        topic: "prices".to_string(),
        client_id: None,
        queue_capacity: None,
        max_retry_attempts: None,
        retry_backoff_ms: None,
        compression: None,
        batch_size: None,
        linger_ms: None,
        acks: None,
        idempotence: None,
    }
}

fn consumer() -> KafkaConsumerConfig {
    KafkaConsumerConfig {
        brokers: "localhost:9092".to_string(),
        topics: vec!["prices".to_string()],
        group_id: "g1".to_string(),
        client_id: None,
        auto_offset_reset: None,
        enable_auto_commit: None,
        auto_commit_interval_ms: None,
        session_timeout_ms: None,
        max_poll_records: None,
    }
}

#[test]
fn producer_defaults() {
    let c = producer();
    assert_eq!(c.queue_capacity(), 1000);
    assert_eq!(c.max_retry_attempts(), 5);
    assert_eq!(c.retry_backoff_ms(), 500);
    assert_eq!(c.retry_backoff(), Duration::from_millis(500));
    assert_eq!(c.linger_duration(), Duration::from_millis(0));
}

#[test]
fn producer_configured_values() {
    let mut c = producer();
    c.queue_capacity = Some(10);
    c.max_retry_attempts = Some(2);
    c.retry_backoff_ms = Some(75);
    c.linger_ms = Some(12);
    assert_eq!(c.queue_capacity(), 10);
    assert_eq!(c.max_retry_attempts(), 2);
    assert_eq!(c.retry_backoff(), Duration::from_millis(75));
    assert_eq!(c.linger_duration(), Duration::from_millis(12));
}

#[test]
fn producer_client_settings_minimal() {
    let cc = producer().client_config();
    assert_eq!(cc.get("bootstrap.servers"), Some("localhost:9092"));
    assert_eq!(cc.get("message.timeout.ms"), Some("5000"));
    assert_eq!(cc.get("client.id"), None);
    assert_eq!(cc.get("batch.size"), None);
    assert_eq!(cc.config_map().len(), 2);
}

#[test]
fn producer_client_settings_full() {
    let mut c = producer();
    c.client_id = Some("me".to_string());
    c.compression = Some("snappy".to_string());
    c.batch_size = Some(16384);
    c.linger_ms = Some(10);
    c.acks = Some("all".to_string());
    c.idempotence = Some(true);
    let cc = c.client_config();
    assert_eq!(cc.get("client.id"), Some("me"));
    assert_eq!(cc.get("compression.type"), Some("snappy"));
    assert_eq!(cc.get("batch.size"), Some("16384"));
    assert_eq!(cc.get("linger.ms"), Some("10"));
    assert_eq!(cc.get("acks"), Some("all"));
    assert_eq!(cc.get("enable.idempotence"), Some("true"));
    assert_eq!(cc.config_map().len(), 8);
}

#[test]
fn consumer_defaults() {
    let c = consumer();
    assert_eq!(c.auto_offset_reset(), "earliest");
    assert!(c.enable_auto_commit());
    assert_eq!(c.auto_commit_interval_ms(), 5000);
    assert_eq!(c.session_timeout_ms(), 10000);
}

#[test]
fn consumer_client_settings_with_auto_commit() {
    let cc = consumer().client_config();
    assert_eq!(cc.get("bootstrap.servers"), Some("localhost:9092"));
    assert_eq!(cc.get("group.id"), Some("g1"));
    assert_eq!(cc.get("auto.offset.reset"), Some("earliest"));
    assert_eq!(cc.get("enable.auto.commit"), Some("true"));
    assert_eq!(cc.get("session.timeout.ms"), Some("10000"));
    assert_eq!(cc.get("auto.commit.interval.ms"), Some("5000"));
    assert_eq!(cc.get("client.id"), None);
}

#[test]
fn consumer_client_settings_without_auto_commit() {
    let mut c = consumer();
    c.enable_auto_commit = Some(false);
    c.auto_offset_reset = Some("latest".to_string());
    c.session_timeout_ms = Some(6000);
    c.client_id = Some("reader".to_string());
    let cc = c.client_config();
    assert_eq!(cc.get("enable.auto.commit"), Some("false"));
    assert_eq!(cc.get("auto.offset.reset"), Some("latest"));
    assert_eq!(cc.get("session.timeout.ms"), Some("6000"));
    assert_eq!(cc.get("client.id"), Some("reader"));
    assert_eq!(cc.get("auto.commit.interval.ms"), None);
}
