use cdc::event::ObserveIdGenerator;
use cdc::registry::ObserveRegistry;

#[test]
fn unsubscribe_with_other_id_keeps_subscription() {
    let mut ids = ObserveIdGenerator::new();
    let a = ids.next_id();
    let b = ids.next_id();
    assert_ne!(a, b);
    let mut reg = ObserveRegistry::new();
    assert_eq!(reg.subscribe(7, a), None);
    assert_eq!(reg.unsubscribe(7, b), None);
    assert_eq!(reg.lookup(7), Some(a));
}

#[test]
fn unsubscribe_with_same_id_removes_subscription() {
    let mut ids = ObserveIdGenerator::new();
    let a = ids.next_id();
    let mut reg = ObserveRegistry::new();
    reg.subscribe(7, a);
    assert_eq!(reg.unsubscribe(7, a), Some(a));
    assert_eq!(reg.lookup(7), None);
    assert_eq!(reg.unsubscribe(7, a), None);
}

#[test]
fn subscribe_replaces_and_returns_previous() {
    let mut ids = ObserveIdGenerator::new();
    let a = ids.next_id();
    let b = ids.next_id();
    let mut reg = ObserveRegistry::new();
    assert_eq!(reg.subscribe(1, a), None);
    assert_eq!(reg.subscribe(1, b), Some(a));
    assert_eq!(reg.lookup(1), Some(b));
    // A late unsubscribe of the replaced generation is a no-op.
    assert_eq!(reg.unsubscribe(1, a), None);
    assert_eq!(reg.lookup(1), Some(b));
    assert_eq!(reg.lookup(2), None);
}
