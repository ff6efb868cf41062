//! The per-target FIFO queue on its own: capacity, teardown, and order.

use postbox::mailbox::{Mailbox, SendError};

#[test]
fn bounded_queue_reports_full_with_item_intact() {
    let mut q: Mailbox<u64> = Mailbox::bounded(2);
    assert!(q.try_push(1).is_ok());
    assert!(q.try_push(2).is_ok());
    match q.try_push(3) {
        Err(SendError::Full(n)) => assert_eq!(n, 3),
        _ => panic!("expected Full"),
    }
    assert_eq!(q.len(), 2);
}

#[test]
fn closed_queue_reports_closed_with_item_intact() {
    let mut q: Mailbox<u64> = Mailbox::unbounded();
    assert!(q.try_push(1).is_ok());
    q.close();
    assert!(!q.connected());
    match q.try_push(2) {
        Err(SendError::Closed(n)) => assert_eq!(n, 2),
        _ => panic!("expected Closed"),
    }
    // The consumer can still drain what was already accepted.
    assert_eq!(q.pop(), Some(1));
    assert_eq!(q.pop(), None);
}

#[test]
fn pop_is_first_in_first_out() {
    let mut q: Mailbox<u64> = Mailbox::unbounded();
    let sent = [5u64, 3, 9, 3, 7];
    for &n in sent.iter() {
        assert!(q.try_push(n).is_ok());
    }
    let mut got = Vec::new();
    while let Some(n) = q.pop() {
        got.push(n);
    }
    assert_eq!(got, sent.to_vec());
}

#[test]
fn force_push_ignores_capacity_but_not_teardown() {
    let mut q: Mailbox<u64> = Mailbox::bounded(1);
    assert!(q.force_push(1));
    assert!(q.force_push(2));
    assert_eq!(q.len(), 2);
    q.close();
    assert!(!q.force_push(3));
    assert_eq!(q.len(), 2);
}

#[test]
fn send_error_hands_the_message_back() {
    let e: SendError<String> = SendError::Full(String::from("pay"));
    assert_eq!(e.into_inner(), "pay");
    let e: SendError<String> = SendError::Closed(String::from("load"));
    assert_eq!(e.into_inner(), "load");
}

#[test]
fn zero_capacity_queue_is_always_full() {
    let mut q: Mailbox<u64> = Mailbox::bounded(0);
    match q.try_push(1) {
        Err(SendError::Full(n)) => assert_eq!(n, 1),
        _ => panic!("expected Full"),
    }
    assert!(q.connected());
}
