use pulsar_error::ErrorKind;
use pulsar_error::SharedError;

#[test]
fn fresh_slot_reads_empty() {
    let shared = SharedError::new();
    assert!(!shared.is_set());
    assert_eq!(shared.remove(), None);
}

#[test]
fn set_then_take_returns_the_deposited_error() {
    let shared = SharedError::new();
    let deposited = ErrorKind::Decoding("bad frame header".to_string());
    shared.set(deposited.clone());
    assert!(shared.is_set());
    assert_eq!(shared.remove(), Some(deposited));
    assert!(!shared.is_set());
}

#[test]
fn take_drains_only_once() {
    let shared = SharedError::new();
    shared.set(ErrorKind::Unexpected("handler registry poisoned".to_string()));
    assert!(shared.remove().is_some());
    assert_eq!(shared.remove(), None);
    assert!(!shared.is_set());
}

#[test]
fn second_set_overwrites_an_undrained_first() {
    let shared = SharedError::new();
    shared.set(ErrorKind::Io("connection reset by peer".to_string()));
    shared.set(ErrorKind::Disconnected);
    assert_eq!(shared.remove(), Some(ErrorKind::Disconnected));
    assert_eq!(shared.remove(), None);
}

#[test]
fn a_set_through_one_handle_is_seen_through_another() {
    let consumer = SharedError::new();
    let producer = consumer.clone();
    assert!(!producer.is_set());
    producer.set(ErrorKind::PulsarError("TooManyRequests".to_string()));
    assert!(consumer.is_set());
    assert_eq!(
        consumer.remove(),
        Some(ErrorKind::PulsarError("TooManyRequests".to_string()))
    );
    assert!(!producer.is_set());
    assert_eq!(producer.remove(), None);
}

#[test]
fn disconnect_handoff_from_producer_to_consumer() {
    let slot = SharedError::new();
    let producer = slot.clone();
    producer.set(ErrorKind::Disconnected);
    assert!(slot.is_set());
    let taken = slot.remove().expect("a deposited error must be drainable");
    assert_eq!(taken, ErrorKind::Disconnected);
    assert_eq!(taken.message(), "Disconnected");
    assert_eq!(slot.remove(), None);
}
