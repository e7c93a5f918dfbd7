use std::time::Duration;

use project_struct_base::errors::DomainError;
use project_struct_base::event_store::{EventMetadata, InMemoryEventStore};
use project_struct_base::message::{KafkaMessage, SerializationFormat};
use project_struct_base::startup::{
    ComponentHealth, GracefulShutdown, HealthSummary, StartupBanner, BANNER_DASH, BANNER_RULE,
};
use project_struct_base::validation::ensure_not_empty;

#[test]
fn message_builders() {
    let m = KafkaMessage::new(42u32);
    assert_eq!(m.key, None);
    assert!(m.headers.is_empty());
    let m = m
        .with_key("k".to_string())
        .with_header("h1".to_string(), "v1".to_string())
        .with_header("h2".to_string(), "v2".to_string());
    assert_eq!(m.key.as_deref(), Some("k"));
    assert_eq!(m.value, 42);
    assert_eq!(
        m.headers,
        vec![("h1".to_string(), "v1".to_string()), ("h2".to_string(), "v2".to_string())]
    );
    assert_ne!(SerializationFormat::Json, SerializationFormat::Avro);
}

#[test]
fn blank_fields_are_rejected() {
    assert_eq!(
        ensure_not_empty("  \t ", "name"),
        Err(DomainError::Validation("name can't be empty".to_string()))
    );
    assert!(ensure_not_empty("", "id").is_err());
    assert_eq!(ensure_not_empty(" a ", "name"), Ok(()));
}

#[test]
fn banner_shows_name_version_and_status() {
    let up = StartupBanner::display(ComponentHealth { database: true }, "svc", "1.2.3");
    let expected = format!(
        "{r}\n svc v1.2.3\n {d}\n Startup Summary:\n  - Database: ✓ OK\n{r}",
        r = BANNER_RULE,
        d = BANNER_DASH
    );
    assert_eq!(up, expected);
    let down = StartupBanner::display(HealthSummary::from_database(false), "svc", "1");
    assert!(down.contains("Database: ✗ UNAVAILABLE"));
    assert_eq!(StartupBanner::status_text(true), "✓ OK");
    assert_eq!(StartupBanner::status_text(false), "✗ UNAVAILABLE");
}

#[test]
fn shutdown_timeouts() {
    assert_eq!(GracefulShutdown::default().shutdown_timeout(), Duration::from_secs(10));
    assert_eq!(
        GracefulShutdown::new(Duration::from_millis(3)).shutdown_timeout(),
        Duration::from_millis(3)
    );
}

#[test]
fn event_store_numbers_each_aggregate_from_one() {
    let mut store: InMemoryEventStore<u32> = InMemoryEventStore::new();
    let md = EventMetadata::default();
    let first = store.append_at(7, vec![("a".to_string(), 1), ("b".to_string(), 2)], md, 100);
    assert_eq!(first.iter().map(|e| e.sequence).collect::<Vec<_>>(), vec![1, 2]);
    assert_eq!(first[1].event_type, "b");
    assert_eq!(first[1].timestamp_ms, 100);
    let second = store.append_at(7, vec![("c".to_string(), 3)], md, 250);
    assert_eq!(second[0].sequence, 3);
    assert_eq!(second[0].timestamp_ms, 250);
    let other = store.append_at(8, vec![("z".to_string(), 9)], md, 5);
    assert_eq!(other[0].sequence, 1);
    let seven = store.read_stream(7);
    assert_eq!(seven.iter().map(|e| e.payload).collect::<Vec<_>>(), vec![1, 2, 3]);
    assert!(seven.iter().all(|e| e.aggregate_id == 7));
    assert!(store.read_stream(99).is_empty());
}
