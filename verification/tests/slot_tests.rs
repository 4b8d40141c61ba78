use pulsar_error::ErrorKind;
use pulsar_error::ErrorSlot;

#[test]
fn new_slot_is_empty_and_unflagged() {
    let mut slot = ErrorSlot::new();
    assert!(!slot.is_set());
    assert_eq!(slot.take(), None);
    assert!(!slot.is_set());
}

#[test]
fn slot_set_then_take_round_trips_the_error() {
    let mut slot = ErrorSlot::new();
    let deposited = ErrorKind::Encoding("payload too large".to_string());
    slot.set(deposited.clone());
    assert!(slot.is_set());
    assert_eq!(slot.take(), Some(deposited));
    assert!(!slot.is_set());
    assert_eq!(slot.take(), None);
}

#[test]
fn slot_keeps_only_the_last_deposit() {
    let mut slot = ErrorSlot::new();
    slot.set(ErrorKind::SocketAddr("no such host".to_string()));
    slot.set(ErrorKind::UnexpectedResponse("pong for a lookup".to_string()));
    assert_eq!(
        slot.take(),
        Some(ErrorKind::UnexpectedResponse("pong for a lookup".to_string()))
    );
}
