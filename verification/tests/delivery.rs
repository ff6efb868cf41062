//! Envelope delivery: at-most-once dispatch, abandoned replies, reply
//! round trips, and suspended handler computations.

use postbox::envelope::{Delivery, EnvelopeProxy, RemoteEnvelope};
use postbox::message::{Deferred, Handler, Response, ResponseType};

struct Counter {
    total: u64,
    seen: Vec<u64>,
}

impl Counter {
    fn new() -> Self {
        Counter { total: 0, seen: Vec::new() }
    }
}

/// Immediate-reply message: add an amount, reply with the new total.
struct Add(u64);

impl ResponseType for Add {
    type Item = u64;
    type Error = ();
}

impl Handler<Add> for Counter {
    type Future = Deferred<Add>;

    fn handle(&mut self, msg: Add) -> Response<Add, Deferred<Add>> {
        self.total += msg.0;
        self.seen.push(msg.0);
        Response::Ready(Ok(self.total))
    }
}

/// Deferred-reply message: add an amount, reply with the new total after
/// one extra poll.
struct SlowAdd(u64);

impl ResponseType for SlowAdd {
    type Item = u64;
    type Error = ();
}

impl Handler<SlowAdd> for Counter {
    type Future = Deferred<SlowAdd>;

    fn handle(&mut self, msg: SlowAdd) -> Response<SlowAdd, Deferred<SlowAdd>> {
        self.total += msg.0;
        self.seen.push(msg.0);
        Response::Later(Deferred::new(1, Ok(self.total)))
    }
}

#[test]
fn handle_at_most_once() {
    let mut act = Counter::new();
    let mut env: RemoteEnvelope<Counter, Add> = RemoteEnvelope::envelope(Add(5), None);
    assert_eq!(env.handle(&mut act), Delivery::Delivered);
    assert_eq!(act.total, 5);
    // The message was consumed: a second delivery attempt finds nothing
    // and leaves the actor untouched.
    assert_eq!(env.handle(&mut act), Delivery::Stale);
    assert_eq!(act.total, 5);
    assert_eq!(act.seen, vec![5]);
}

#[test]
fn reply_round_trip() {
    let mut act = Counter::new();
    act.total = 10;
    let (tx, mut rx) = futures::channel::oneshot::channel();
    let mut env: RemoteEnvelope<Counter, Add> = RemoteEnvelope::envelope(Add(7), Some(tx));
    assert_eq!(env.handle(&mut act), Delivery::Delivered);
    // The caller sees the handler's computed reply, not the input.
    assert_eq!(rx.try_recv(), Ok(Some(Ok(17))));
}

#[test]
fn abandoned_reply_aborts_dispatch_by_default() {
    let mut act = Counter::new();
    let (tx, rx) = futures::channel::oneshot::channel();
    let mut env: RemoteEnvelope<Counter, Add> = RemoteEnvelope::envelope(Add(3), Some(tx));
    drop(rx);
    // Default policy: nobody can observe the result, so skip the handler.
    assert_eq!(env.handle(&mut act), Delivery::Aborted);
    assert_eq!(act.total, 0);
    assert!(act.seen.is_empty());
    // The abort is terminal too.
    assert_eq!(env.handle(&mut act), Delivery::Stale);
}

#[test]
fn abandoned_reply_is_silent_without_cancel_on_drop() {
    let mut act = Counter::new();
    let (tx, rx) = futures::channel::oneshot::channel();
    let mut env: RemoteEnvelope<Counter, Add> = RemoteEnvelope::new(Add(4), Some(tx), false);
    drop(rx);
    // The handler still runs to completion; the failed reply send is a
    // normal, silent outcome, not an error.
    assert_eq!(env.handle(&mut act), Delivery::Delivered);
    assert_eq!(act.total, 4);
}

#[test]
fn abandoned_reply_after_suspension_is_silent() {
    let mut act = Counter::new();
    let (tx, rx) = futures::channel::oneshot::channel();
    let mut env: RemoteEnvelope<Counter, SlowAdd> = RemoteEnvelope::envelope(SlowAdd(9), Some(tx));
    assert_eq!(env.handle(&mut act), Delivery::Suspended);
    assert_eq!(act.total, 9);
    // The caller disappears while the handler's computation is in flight.
    drop(rx);
    // The computation is still driven to completion and the dead sink
    // does not fail the delivery step.
    assert_eq!(env.poll(&mut act), Delivery::Suspended);
    assert_eq!(env.poll(&mut act), Delivery::Delivered);
    assert_eq!(env.poll(&mut act), Delivery::Stale);
}

#[test]
fn suspended_reply_arrives_after_polls() {
    let mut act = Counter::new();
    let (tx, mut rx) = futures::channel::oneshot::channel();
    let mut env: RemoteEnvelope<Counter, SlowAdd> = RemoteEnvelope::envelope(SlowAdd(2), Some(tx));
    assert_eq!(env.handle(&mut act), Delivery::Suspended);
    assert_eq!(rx.try_recv(), Ok(None));
    // First poll burns the deferral tick.
    assert_eq!(env.poll(&mut act), Delivery::Suspended);
    assert_eq!(rx.try_recv(), Ok(None));
    // Second poll resolves and pushes the reply.
    assert_eq!(env.poll(&mut act), Delivery::Delivered);
    assert_eq!(rx.try_recv(), Ok(Some(Ok(2))));
}

#[test]
fn polling_a_queued_envelope_does_nothing() {
    let mut act = Counter::new();
    let mut env: RemoteEnvelope<Counter, Add> = RemoteEnvelope::envelope(Add(1), None);
    assert_eq!(env.poll(&mut act), Delivery::Stale);
    assert_eq!(act.total, 0);
    assert_eq!(env.handle(&mut act), Delivery::Delivered);
    assert_eq!(act.total, 1);
}
