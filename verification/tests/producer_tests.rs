use eventhub_producer::batch::EventDataBatchOptions;
use eventhub_producer::error::ErrorKind;
use eventhub_producer::producer::{
    prepare_send_event, EventData, ProducerClient, ProducerClientBuilder, SendEventOptions,
    SendMessageOptions,
};
use eventhub_producer::retry::RetryOptions;
use eventhub_producer::{BATCH_MESSAGE_FORMAT, SINGLE_MESSAGE_FORMAT};

fn producer() -> ProducerClient {
    ProducerClient::builder()
        .with_application_id("myapp".to_string())
        .build("ns.servicebus.example", "myhub")
        .expect("the composed service URL parses")
}

#[test]
fn builder_composes_and_normalizes_the_service_url() {
    let p = ProducerClientBuilder::new()
        .build("ns.example", "my hub")
        .expect("the composed service URL parses");
    // URL parsing percent-encodes the space: handing the text back
    // unchanged would fail this.
    assert_eq!(p.base_url().as_str(), "amqps://ns.example/my%20hub");
}

#[test]
fn builder_rejects_an_invalid_namespace() {
    let r = ProducerClientBuilder::new().build("bad host", "hub");
    assert!(matches!(r, Err(e) if e.kind == ErrorKind::InvalidUrl));
}

#[test]
fn builder_rejects_an_invalid_custom_endpoint() {
    let r = ProducerClientBuilder::new()
        .with_custom_endpoint("not a url".to_string())
        .build("ns.example", "hub");
    assert!(matches!(r, Err(e) if e.kind == ErrorKind::InvalidUrl));
}

#[test]
fn builder_applies_retry_options() {
    let options = RetryOptions {
        max_attempts: 2,
        initial_delay_ms: 10,
        max_delay_ms: 20,
        try_timeout_ms: Some(5000),
    };
    let p = ProducerClientBuilder::new()
        .with_retry_options(options.clone())
        .build("ns.example", "hub")
        .unwrap();
    assert_eq!(p.retry_options(), &options);
}

#[test]
fn resolve_target_defaults_to_the_base_url() {
    let p = producer();
    let target = p.resolve_target(&None).unwrap();
    assert_eq!(&target, p.base_url());
}

#[test]
fn resolve_target_builds_the_partition_path() {
    let p = producer();
    let target = p.resolve_target(&Some("7".to_string())).unwrap();
    assert_eq!(target, "amqps://ns.servicebus.example/myhub/Partitions/7");
}

#[test]
fn message_submission_is_tagged_single() {
    let p = producer();
    let options = SendMessageOptions { partition_id: None };
    let s = p.prepare_message_submission(&options).unwrap();
    assert_eq!(s.message_format, SINGLE_MESSAGE_FORMAT);
    assert_eq!(&s.target_path, p.base_url());
}

#[test]
fn batch_submission_is_tagged_with_the_batch_format() {
    let p = producer();
    let batch_options = EventDataBatchOptions {
        max_size_in_bytes: None,
        partition_id: Some("2".to_string()),
    };
    let batch = p.create_batch(batch_options, 4096);
    let s = p.prepare_batch_submission(&batch).unwrap();
    assert_eq!(s.message_format, BATCH_MESSAGE_FORMAT);
    assert_eq!(s.target_path, "amqps://ns.servicebus.example/myhub/Partitions/2");
}

#[test]
fn send_event_options_convert_to_message_options() {
    let event_options = SendEventOptions {
        partition_id: Some("5".to_string()),
    };
    let message_options = SendMessageOptions::from(event_options);
    assert_eq!(message_options.partition_id, Some("5".to_string()));
}

#[test]
fn missing_message_id_is_assigned_before_submission() {
    let event = EventData {
        body: vec![1, 2, 3],
        message_id: None,
    };
    let m = prepare_send_event(event);
    assert_eq!(m.body, vec![1, 2, 3]);
    let id = m.message_id.expect("an id must be assigned");
    assert!(!id.is_empty());
    assert_eq!(id.chars().count(), 36);
}

#[test]
fn present_message_id_is_kept() {
    let event = EventData {
        body: vec![9],
        message_id: Some("caller-chosen".to_string()),
    };
    let m = prepare_send_event(event);
    assert_eq!(m.message_id, Some("caller-chosen".to_string()));
}

#[test]
fn two_generated_message_ids_differ() {
    let event = EventData {
        body: vec![1],
        message_id: None,
    };
    let a = prepare_send_event(event.clone()).message_id.unwrap();
    let b = prepare_send_event(event).message_id.unwrap();
    assert_ne!(a, b);
}

#[test]
fn sender_links_are_named_from_the_application_identity() {
    let p = producer();
    assert_eq!(p.sender_link_name(), "myapp-rust-sender");
    let anonymous = ProducerClientBuilder::new().build("ns.example", "hub").unwrap();
    assert_eq!(
        anonymous.sender_link_name(),
        "DefaultApplicationName-rust-sender"
    );
}

#[test]
fn ensure_sender_attaches_once_per_path() {
    let mut p = producer();
    let path = p.resolve_target(&None).unwrap();
    let (id1, attached1) = p.ensure_sender(&path).unwrap();
    let (id2, attached2) = p.ensure_sender(&path).unwrap();
    assert!(attached1);
    assert!(!attached2);
    assert_eq!(id1, id2);
}

#[test]
fn senders_for_distinct_partitions_are_distinct() {
    let mut p = producer();
    let base = p.resolve_target(&None).unwrap();
    let part = p.resolve_target(&Some("0".to_string())).unwrap();
    let (id1, _) = p.ensure_sender(&base).unwrap();
    let (id2, attached2) = p.ensure_sender(&part).unwrap();
    assert!(attached2);
    assert_ne!(id1, id2);
}

#[test]
fn management_client_attaches_once_after_the_connection() {
    let mut p = producer();
    // The management link needs a live connection.
    let r = p.ensure_management_client();
    assert!(matches!(r, Err(e) if e.kind == ErrorKind::ConnectionClosed));
    // A first send opens the connection lazily.
    let path = p.resolve_target(&None).unwrap();
    p.ensure_sender(&path).unwrap();
    assert_eq!(p.ensure_management_client(), Ok(true));
    assert_eq!(p.ensure_management_client(), Ok(false));
}

#[test]
fn close_hands_back_every_attached_sender() {
    let mut p = producer();
    let base = p.resolve_target(&None).unwrap();
    let part0 = p.resolve_target(&Some("0".to_string())).unwrap();
    let part1 = p.resolve_target(&Some("1".to_string())).unwrap();
    p.ensure_sender(&base).unwrap();
    p.ensure_sender(&part0).unwrap();
    p.ensure_sender(&part1).unwrap();
    p.ensure_sender(&part0).unwrap();
    let paths = p.close();
    assert_eq!(paths, vec![base, part0, part1]);
}

#[test]
fn close_with_no_senders_hands_back_none() {
    let p = producer();
    assert_eq!(p.close(), Vec::<String>::new());
}
