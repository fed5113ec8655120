use rustlib::{Delivery, HandleError, Ownership, Registration, Registry, GB, SENTINEL};

#[test]
fn default_registry_uses_one_gibibyte() {
    let r = Registry::new();
    assert_eq!(GB, 1024 * 1024 * 1024);
    assert_eq!(r.buffer_len(), GB);
    assert_eq!(r.handle_count(), 0);
}

#[test]
fn create_fills_buffer_with_sentinel() {
    let mut r = Registry::with_buffer_len(64);
    let reg = r.create_object().unwrap();
    assert_eq!(reg, Registration { handle: 1, size: 64 });
    let bytes = r.contents(reg.handle).unwrap();
    assert_eq!(bytes.len(), 64);
    assert!(bytes.iter().all(|b| *b == 42));
    assert_eq!(SENTINEL, 42);
    assert_eq!(r.state(reg.handle), Some(Ownership::Owned));
}

#[test]
fn handles_are_distinct_and_declare_real_length() {
    let mut r = Registry::with_buffer_len(5);
    let a = r.create_object().unwrap();
    let b = r.create_object().unwrap();
    let c = r.create_object().unwrap();
    assert_eq!((a.handle, b.handle, c.handle), (1, 2, 3));
    for reg in [a, b, c] {
        assert_eq!(reg.size, r.contents(reg.handle).unwrap().len());
    }
    assert_eq!(r.handle_count(), 3);
}

#[test]
fn inspect_twice_leaves_buffer_alive() {
    let mut r = Registry::with_buffer_len(16);
    let reg = r.create_object().unwrap();
    assert_eq!(r.record_delivery(reg.handle, true), Ok(Delivery::Delivered));
    assert_eq!(r.inspect_object(reg.handle), Ok(()));
    assert_eq!(r.inspect_object(reg.handle), Ok(()));
    assert_eq!(r.contents(reg.handle).unwrap(), &[42u8; 16][..]);
    assert_eq!(r.state(reg.handle), Some(Ownership::Transferred));
}

#[test]
fn finalized_handle_is_refused() {
    let mut r = Registry::with_buffer_len(8);
    let reg = r.create_object().unwrap();
    assert_eq!(r.callback(reg.handle), Ok(()));
    assert_eq!(r.state(reg.handle), Some(Ownership::Finalized));
    assert_eq!(r.contents(reg.handle), None);
    assert_eq!(r.inspect_object(reg.handle), Err(HandleError::Finalized));
    assert_eq!(r.callback(reg.handle), Err(HandleError::Finalized));
    assert_eq!(r.record_delivery(reg.handle, true), Err(HandleError::Finalized));
}

#[test]
fn finalize_leaves_other_handles_alone() {
    let mut r = Registry::with_buffer_len(4);
    let a = r.create_object().unwrap();
    let b = r.create_object().unwrap();
    assert_eq!(r.callback(a.handle), Ok(()));
    assert_eq!(r.inspect_object(b.handle), Ok(()));
    assert_eq!(r.contents(b.handle).unwrap(), &[42u8; 4][..]);
}

#[test]
fn unknown_handles_are_refused() {
    let mut r = Registry::with_buffer_len(4);
    assert_eq!(r.inspect_object(1), Err(HandleError::Unknown));
    r.create_object().unwrap();
    assert_eq!(r.inspect_object(0), Err(HandleError::Unknown));
    assert_eq!(r.inspect_object(2), Err(HandleError::Unknown));
    assert_eq!(r.callback(0), Err(HandleError::Unknown));
    assert_eq!(r.callback(7), Err(HandleError::Unknown));
    assert_eq!(r.record_delivery(2, true), Err(HandleError::Unknown));
    assert_eq!(r.state(2), None);
    assert_eq!(r.contents(0), None);
}

#[test]
fn second_delivery_is_refused() {
    let mut r = Registry::with_buffer_len(4);
    let reg = r.create_object().unwrap();
    assert_eq!(r.record_delivery(reg.handle, true), Ok(Delivery::Delivered));
    assert_eq!(r.record_delivery(reg.handle, true), Err(HandleError::AlreadyTransferred));
    assert_eq!(r.state(reg.handle), Some(Ownership::Transferred));
}

#[test]
fn undelivered_buffer_can_be_delivered_again() {
    let mut r = Registry::with_buffer_len(4);
    let reg = r.create_object().unwrap();
    assert_eq!(r.record_delivery(reg.handle, false), Ok(Delivery::LeakedUndelivered));
    assert_eq!(r.state(reg.handle), Some(Ownership::Undelivered));
    assert_eq!(r.record_delivery(reg.handle, true), Ok(Delivery::Delivered));
    assert_eq!(r.state(reg.handle), Some(Ownership::Transferred));
}

#[test]
fn failed_delivery_keeps_buffer_inspectable() {
    let mut r = Registry::with_buffer_len(32);
    let reg = r.create_object().unwrap();
    let notify = |_: Registration| false;
    let outcome = r.record_delivery(reg.handle, notify(reg)).unwrap();
    assert_eq!(outcome, Delivery::LeakedUndelivered);
    assert_eq!(r.inspect_object(reg.handle), Ok(()));
    assert_eq!(r.contents(reg.handle).unwrap().len(), 32);
    assert_eq!(r.callback(reg.handle), Ok(()));
}

#[test]
fn delivered_lifecycle_end_to_end() {
    let mut r = Registry::with_buffer_len(128);
    let mut captured: Vec<Registration> = Vec::new();
    let reg = r.create_object().unwrap();
    let mut notify = |e: Registration| {
        captured.push(e);
        true
    };
    let delivered = notify(reg);
    assert_eq!(r.record_delivery(reg.handle, delivered), Ok(Delivery::Delivered));
    assert_eq!(captured.len(), 1);
    assert_eq!(captured[0].size, 128);
    assert_ne!(captured[0].handle, 0);
    assert_eq!(r.inspect_object(reg.handle), Ok(()));
    assert_eq!(r.state(reg.handle), Some(Ownership::Transferred));
    assert_eq!(r.callback(reg.handle), Ok(()));
    assert_eq!(r.contents(reg.handle), None);
    assert_eq!(r.inspect_object(reg.handle), Err(HandleError::Finalized));
}

#[test]
fn undelivered_lifecycle_end_to_end() {
    let mut r = Registry::with_buffer_len(128);
    let reg = r.create_object().unwrap();
    let notify = |_: Registration| false;
    let outcome = r.record_delivery(reg.handle, notify(reg));
    assert_eq!(outcome, Ok(Delivery::LeakedUndelivered));
    assert_eq!(r.inspect_object(reg.handle), Ok(()));
    assert_eq!(r.contents(reg.handle).unwrap()[0], 42);
}
