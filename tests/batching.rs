use project_struct_base::batching::BatchBuffer;
use project_struct_base::message::KafkaMessage;

fn msg(key: &str, value: i32) -> KafkaMessage<i32> {
    KafkaMessage::new(value).with_key(key.to_string())
}

fn values(batch: &[KafkaMessage<i32>]) -> Vec<i32> {
    batch.iter().map(|m| m.value).collect()
}

#[test]
fn threshold_sends_trigger_exactly_one_flush_in_order() {
    let mut b = BatchBuffer::new(4);
    let mut flushes = Vec::new();
    for v in 1..=4 {
        let out = b.send(msg("k", v));
        if !out.is_empty() {
            flushes.push(values(&out));
        }
    }
    assert_eq!(flushes, vec![vec![1, 2, 3, 4]]);
    assert!(b.is_empty());
    assert_eq!(b.len(), 0);
}

#[test]
fn tick_on_empty_buffer_sends_nothing() {
    let mut b: BatchBuffer<i32> = BatchBuffer::new(10);
    assert!(b.tick().is_empty());
    assert!(b.tick().is_empty());
    assert!(b.is_empty());
}

#[test]
fn batches_of_two_then_remainder_on_tick() {
    let mut b = BatchBuffer::new(2);
    assert!(b.send(msg("a", 1)).is_empty());
    let first = b.send(msg("a", 2));
    assert_eq!(values(&first), vec![1, 2]);
    assert_eq!(first[0].key.as_deref(), Some("a"));
    assert!(b.send(msg("b", 3)).is_empty());
    assert_eq!(b.len(), 1);
    let later = b.tick();
    assert_eq!(values(&later), vec![3]);
    assert_eq!(later[0].key.as_deref(), Some("b"));
    assert!(b.is_empty());
}

#[test]
fn push_reports_threshold_and_take_empties() {
    let mut b = BatchBuffer::new(2);
    assert_eq!(b.max_batch_size(), 2);
    assert!(!b.push(msg("x", 7)));
    assert!(b.push(msg("y", 8)));
    assert!(b.push(msg("z", 9)));
    assert_eq!(values(&b.take()), vec![7, 8, 9]);
    assert!(b.is_empty());
}

#[test]
fn zero_threshold_delivers_every_send() {
    let mut b = BatchBuffer::new(0);
    assert_eq!(values(&b.send(msg("a", 5))), vec![5]);
    assert_eq!(values(&b.send(msg("a", 6))), vec![6]);
}

#[test]
fn send_batch_of_threshold_size_gives_one_ordered_batch() {
    let mut b = BatchBuffer::new(3);
    let batches = b.send_batch(vec![msg("a", 1), msg("a", 2), msg("b", 3)]);
    assert_eq!(batches.len(), 1);
    assert_eq!(values(&batches[0]), vec![1, 2, 3]);
    assert!(b.is_empty());
}

#[test]
fn send_batch_splits_at_threshold_and_keeps_remainder() {
    let mut b = BatchBuffer::new(2);
    let batches = b.send_batch(vec![msg("a", 1), msg("a", 2), msg("b", 3), msg("b", 4), msg("c", 5)]);
    let got: Vec<Vec<i32>> = batches.iter().map(|x| values(x)).collect();
    assert_eq!(got, vec![vec![1, 2], vec![3, 4]]);
    assert_eq!(values(&b.tick()), vec![5]);
}
