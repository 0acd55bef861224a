use eventhub_producer::batch::{EventDataBatch, EventDataBatchOptions};
use eventhub_producer::cache::SenderCache;
use eventhub_producer::connection::{ConnectionManager, ConnectionState};
use eventhub_producer::error::ErrorKind;

#[test]
fn new_batch_is_empty() {
    let b = EventDataBatch::new(EventDataBatchOptions::default(), 1024);
    assert_eq!(b.len(), 0);
    assert!(b.is_empty());
    assert_eq!(b.size_in_bytes(), 0);
    assert_eq!(b.max_size_in_bytes(), 1024);
    assert_eq!(b.partition_id(), &None);
}

#[test]
fn caller_ceiling_narrows_negotiated_ceiling() {
    let options = EventDataBatchOptions {
        max_size_in_bytes: Some(64),
        partition_id: Some("3".to_string()),
    };
    let b = EventDataBatch::new(options, 1024);
    assert_eq!(b.max_size_in_bytes(), 64);
    assert_eq!(b.partition_id(), &Some("3".to_string()));
}

#[test]
fn batch_accepts_while_under_ceiling() {
    let options = EventDataBatchOptions {
        max_size_in_bytes: Some(10),
        partition_id: None,
    };
    let mut b = EventDataBatch::new(options, 1024);
    assert!(b.try_add_payload(vec![1, 2, 3, 4]));
    assert!(b.try_add_payload(vec![5, 6, 7]));
    assert_eq!(b.len(), 2);
    assert_eq!(b.size_in_bytes(), 7);
    // An exact fit is accepted: 7 + 3 == 10.
    assert!(b.try_add_payload(vec![8, 9, 10]));
    assert_eq!(b.size_in_bytes(), 10);
}

#[test]
fn batch_rejects_overflow_without_mutating() {
    let options = EventDataBatchOptions {
        max_size_in_bytes: Some(5),
        partition_id: None,
    };
    let mut b = EventDataBatch::new(options, 1024);
    assert!(b.try_add_payload(vec![1, 2, 3]));
    // 3 + 3 > 5: refused, and the batch is exactly as before.
    assert!(!b.try_add_payload(vec![4, 5, 6]));
    assert_eq!(b.len(), 1);
    assert_eq!(b.size_in_bytes(), 3);
    assert_eq!(b.payloads(), &vec![vec![1u8, 2, 3]]);
    // 3 + 2 <= 5 still fits afterwards.
    assert!(b.try_add_payload(vec![4, 5]));
    assert_eq!(b.size_in_bytes(), 5);
}

#[test]
fn empty_payload_fits_a_full_batch() {
    let options = EventDataBatchOptions {
        max_size_in_bytes: Some(0),
        partition_id: None,
    };
    let mut b = EventDataBatch::new(options, 1024);
    assert!(b.try_add_payload(Vec::new()));
    assert!(!b.try_add_payload(vec![1]));
    assert_eq!(b.len(), 1);
}

#[test]
fn cache_attaches_once_per_path() {
    let mut c = SenderCache::new();
    let p = "amqps://ns.example/eh".to_string();
    let (id1, attached1) = c.ensure_sender(&p);
    let (id2, attached2) = c.ensure_sender(&p);
    assert!(attached1);
    assert!(!attached2);
    assert_eq!(id1, id2);
    assert_eq!(c.len(), 1);
}

#[test]
fn cache_entries_are_independent() {
    let mut c = SenderCache::new();
    let p1 = "amqps://ns.example/eh".to_string();
    let p2 = "amqps://ns.example/eh/Partitions/0".to_string();
    let (id1, _) = c.ensure_sender(&p1);
    let (id2, attached2) = c.ensure_sender(&p2);
    assert!(attached2);
    assert_ne!(id1, id2);
    // Ensuring one path again leaves the other's entry untouched.
    let (again1, attached_again) = c.ensure_sender(&p1);
    assert_eq!(again1, id1);
    assert!(!attached_again);
    assert_eq!(c.lookup(&p2), Some(id2));
    assert_eq!(c.len(), 2);
}

#[test]
fn cache_lookup_misses_unknown_path() {
    let c = SenderCache::new();
    assert_eq!(c.lookup(&"amqps://ns.example/eh".to_string()), None);
}

#[test]
fn connection_opens_lazily_and_idempotently() {
    let mut m = ConnectionManager::new();
    assert!(!m.connection_ready());
    assert_eq!(m.ensure_connection(), Ok(true));
    assert!(m.connection_ready());
    assert_eq!(m.ensure_connection(), Ok(false));
    assert!(m.connection_ready());
}

#[test]
fn closed_connection_stays_closed() {
    let mut m = ConnectionManager::new();
    m.ensure_connection().unwrap();
    m.close_connection();
    assert!(!m.connection_ready());
    let r = m.ensure_connection();
    assert!(matches!(r, Err(e) if e.kind == ErrorKind::ConnectionClosed));
    // Closing again is safe.
    m.close_connection();
    assert!(!m.connection_ready());
}

#[test]
fn authorization_needs_a_live_connection() {
    let mut m = ConnectionManager::new();
    let path = "amqps://ns.example/eh".to_string();
    let r = m.authorize_path(&path);
    assert!(matches!(r, Err(e) if e.kind == ErrorKind::ConnectionClosed));
    m.ensure_connection().unwrap();
    assert_eq!(m.authorize_path(&path), Ok(()));
}

#[test]
fn connection_state_is_comparable() {
    assert_eq!(ConnectionState::Absent, ConnectionState::Absent);
    assert_ne!(ConnectionState::Absent, ConnectionState::Open);
}
