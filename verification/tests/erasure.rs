//! One queue, many message types: a user-supplied erased unit carries
//! differently typed messages through a single address, exactly as the
//! converter and proxy contracts intend.

use postbox::address::{RequestPoll, SyncAddress};
use postbox::envelope::{Delivery, EnvelopeProxy, RemoteEnvelope, Stage, ToEnvelope};
use postbox::message::{Deferred, Handler, MessageResult, Response, ResponseType};

struct Machine {
    total: u64,
    name: String,
}

struct Add(u64);

impl ResponseType for Add {
    type Item = u64;
    type Error = ();
}

impl Handler<Add> for Machine {
    type Future = Deferred<Add>;

    fn handle(&mut self, msg: Add) -> Response<Add, Deferred<Add>> {
        self.total += msg.0;
        Response::Ready(Ok(self.total))
    }
}

struct SetName(String);

impl ResponseType for SetName {
    type Item = String;
    type Error = ();
}

impl Handler<SetName> for Machine {
    type Future = Deferred<SetName>;

    fn handle(&mut self, msg: SetName) -> Response<SetName, Deferred<SetName>> {
        let previous = std::mem::replace(&mut self.name, msg.0);
        Response::Ready(Ok(previous))
    }
}

/// The erased unit: one type holding a unit of work for either message.
enum Job {
    Add(RemoteEnvelope<Machine, Add>),
    Name(RemoteEnvelope<Machine, SetName>),
}

impl EnvelopeProxy<Machine> for Job {
    // The three state items below exist for verification only and are
    // never invoked at run time; any body serves.
    fn stage(&self) -> Stage {
        Stage::Queued
    }

    fn reply_live(&self) -> bool {
        false
    }

    fn cancels_on_drop(&self) -> bool {
        true
    }

    fn handle(&mut self, act: &mut Machine) -> Delivery {
        match self {
            Job::Add(e) => e.handle(act),
            Job::Name(e) => e.handle(act),
        }
    }

    fn poll(&mut self, act: &mut Machine) -> Delivery {
        match self {
            Job::Add(e) => e.poll(act),
            Job::Name(e) => e.poll(act),
        }
    }
}

impl ToEnvelope<Machine, Add> for Job {
    // Verification-only state item; never invoked at run time.
    fn packed_message(&self) -> Option<Add> {
        None
    }

    fn pack(
        msg: Add,
        tx: Option<futures::channel::oneshot::Sender<MessageResult<Add>>>,
        cancel_on_drop: bool,
    ) -> Self {
        Job::Add(RemoteEnvelope::new(msg, tx, cancel_on_drop))
    }

    fn pack_msg(
        msg: Add,
        tx: Option<futures::channel::oneshot::Sender<MessageResult<Add>>>,
    ) -> Self {
        Job::Add(RemoteEnvelope::envelope(msg, tx))
    }
}

impl ToEnvelope<Machine, SetName> for Job {
    // Verification-only state item; never invoked at run time.
    fn packed_message(&self) -> Option<SetName> {
        None
    }

    fn pack(
        msg: SetName,
        tx: Option<futures::channel::oneshot::Sender<MessageResult<SetName>>>,
        cancel_on_drop: bool,
    ) -> Self {
        Job::Name(RemoteEnvelope::new(msg, tx, cancel_on_drop))
    }

    fn pack_msg(
        msg: SetName,
        tx: Option<futures::channel::oneshot::Sender<MessageResult<SetName>>>,
    ) -> Self {
        Job::Name(RemoteEnvelope::envelope(msg, tx))
    }
}

#[test]
fn mixed_messages_through_one_queue() {
    let mut addr: SyncAddress<Machine, Job> = SyncAddress::unbounded();
    addr.send(Add(2));
    assert!(addr.try_send(SetName(String::from("worker"))).is_ok());
    let mut ask = addr.call_fut(Add(40));
    assert_eq!(addr.queue_len(), 3);

    let mut act = Machine { total: 0, name: String::new() };
    while let Some(mut env) = addr.recv() {
        assert_eq!(env.handle(&mut act), Delivery::Delivered);
    }
    assert_eq!(act.total, 42);
    assert_eq!(act.name, "worker");
    match ask.poll(&mut addr) {
        RequestPoll::Resolved(Ok(n)) => assert_eq!(n, 42),
        _ => panic!("expected resolved reply"),
    }
}
