use vstd::prelude::*;

verus! {

use core::marker::PhantomData;
use crate::message::{ResponseType, Response, ResponseFuture, Handler, MessageResult};
use crate::reply::{reply_is_abandoned, reply_send};

/// Where a queued unit of work stands in its life.
#[derive(Clone, Copy, PartialEq, Eq, Structural, Debug)]
pub enum Stage {
    /// Still carrying its message; not yet delivered.
    Queued,
    /// The message was dispatched and the handler's computation is still
    /// running; poll again later.
    Suspended,
    /// Terminal: delivered, aborted or drained. The message is gone and
    /// will never be dispatched again.
    Done,
}

/// What one `handle` or `poll` step did.
#[derive(Clone, Copy, PartialEq, Eq, Structural, Debug)]
pub enum Delivery {
    /// The handler's reply was obtained and pushed toward the reply sink.
    Delivered,
    /// The handler returned a pending computation; it was kept for later
    /// polls.
    Suspended,
    /// The waiting caller disappeared before dispatch, so invoking the
    /// handler was skipped: nobody could observe its result. Not an error.
    Aborted,
    /// There was nothing to do: the unit was already past that step.
    Stale,
}

/// The uniform "deliver to this actor" interface: every queued unit of
/// work for an actor of type `A` exposes exactly this, whatever message
/// type it was built from. One queue can therefore hold units built from
/// arbitrarily many message types, as long as they erase to one type
/// implementing this trait.
///
/// The contracts are the delivery rules of the whole substrate: a unit is
/// dispatched at most once (`handle` moves it out of `Queued` forever and
/// does nothing when called again), an abandoned reply aborts dispatch
/// without touching the actor, and a suspended computation is driven only
/// by `poll`.
pub trait EnvelopeProxy<A>: Sized {
    /// Where this unit stands in its life.
    spec fn stage(&self) -> Stage;

    /// Whether the unit still holds the producer half of a reply channel.
    spec fn reply_live(&self) -> bool;

    /// Whether delivery is skipped when the waiting caller is found to
    /// have disappeared before dispatch.
    spec fn cancels_on_drop(&self) -> bool;

    /// Deliver to the actor: invoked by the execution loop with exclusive,
    /// non-reentrant access to the actor's state. Consumes the message, so
    /// a second invocation finds nothing and reports `Stale` without
    /// touching the actor.
    fn handle(&mut self, act: &mut A) -> (r: Delivery)
        ensures
            final(self).stage() != Stage::Queued,
            final(self).cancels_on_drop() == old(self).cancels_on_drop(),
            old(self).stage() != Stage::Queued ==> r == Delivery::Stale && *final(self) == *old(self) && *final(act) == *old(act),
            r == Delivery::Stale ==> old(self).stage() != Stage::Queued,
            r == Delivery::Delivered ==> final(self).stage() == Stage::Done && !final(self).reply_live(),
            r == Delivery::Suspended ==> final(self).stage() == Stage::Suspended && final(self).reply_live() == old(self).reply_live(),
            r == Delivery::Aborted ==> old(self).stage() == Stage::Queued && old(self).reply_live() && old(self).cancels_on_drop() && final(self).stage() == Stage::Done
                && !final(self).reply_live() && *final(act) == *old(act),
    ;

    /// Drive a suspended computation one step. Anywhere else in the
    /// unit's life this does nothing and reports `Stale`.
    fn poll(&mut self, act: &mut A) -> (r: Delivery)
        ensures
            final(self).cancels_on_drop() == old(self).cancels_on_drop(),
            old(self).stage() != Stage::Suspended ==> r == Delivery::Stale && *final(self) == *old(self) && *final(act) == *old(act),
            r == Delivery::Stale ==> old(self).stage() != Stage::Suspended,
            r == Delivery::Delivered ==> final(self).stage() == Stage::Done && !final(self).reply_live(),
            r == Delivery::Suspended ==> final(self).stage() == Stage::Suspended && old(self).stage() == Stage::Suspended && final(self).reply_live() == old(self).reply_live(),
            r != Delivery::Aborted,
    ;
}

/// Converter contract: how a typed message, with its optional reply sink,
/// is packed into the uniform queued unit an actor's queue holds. One
/// queued-unit type implements this once per message type it accepts,
/// which is what lets a single queue take them all.
pub trait ToEnvelope<A, M: ResponseType>: EnvelopeProxy<A> {
    /// The message of type `M` this unit still carries, if any.
    spec fn packed_message(&self) -> Option<M>;

    /// Pack a message, choosing the abandonment policy.
    fn pack(
        msg: M,
        tx: Option<futures::channel::oneshot::Sender<MessageResult<M>>>,
        cancel_on_drop: bool,
    ) -> (e: Self)
        ensures
            e.stage() == Stage::Queued,
            e.packed_message() == Some(msg),
            e.reply_live() == (tx is Some),
            e.cancels_on_drop() == cancel_on_drop,
    ;

    /// Pack a message with the default abandonment policy: skip delivery
    /// when the waiting caller is already gone.
    fn pack_msg(
        msg: M,
        tx: Option<futures::channel::oneshot::Sender<MessageResult<M>>>,
    ) -> (e: Self)
        ensures
            e.stage() == Stage::Queued,
            e.packed_message() == Some(msg),
            e.reply_live() == (tx is Some),
            e.cancels_on_drop(),
    ;
}

/// A unit of work's own state: the message it still carries, the handler
/// computation it is waiting on, or nothing.
enum Body<M: ResponseType, F> {
    Queued(M),
    Suspended(F),
    Done,
}

/// A queued unit of work binding one message of type `M` to an actor of
/// type `A`, together with the optional producer half of a one-shot reply
/// channel. Construction is fully typed; delivery goes through the
/// type-erased [`EnvelopeProxy`] interface.
///
/// Safe to move across threads whenever `M` and its reply payloads are;
/// nothing here manufactures that capability where the payload lacks it.
pub struct RemoteEnvelope<A, M> where A: Handler<M>, M: ResponseType {
    body: Body<M, <A as Handler<M>>::Future>,
    tx: Option<futures::channel::oneshot::Sender<MessageResult<M>>>,
    cancel_on_drop: bool,
    act: PhantomData<A>,
}

impl<A, M> RemoteEnvelope<A, M> where A: Handler<M>, M: ResponseType {
    /// The message this unit still carries, if it was not dispatched yet.
    pub closed spec fn queued_message(&self) -> Option<M> {
        match self.body {
            Body::Queued(m) => Some(m),
            _ => None,
        }
    }

    /// Build a unit of work from a message, an optional reply sink, and
    /// the abandonment policy: with `cancel_on_drop`, delivery is skipped
    /// when the waiting caller is already gone at dispatch time.
    pub fn new(
        msg: M,
        tx: Option<futures::channel::oneshot::Sender<MessageResult<M>>>,
        cancel_on_drop: bool,
    ) -> (r: Self)
        ensures
            r.stage() == Stage::Queued,
            r.queued_message() == Some(msg),
            r.reply_live() == (tx is Some),
            r.cancels_on_drop() == cancel_on_drop,
    {
        RemoteEnvelope { body: Body::Queued(msg), tx, cancel_on_drop, act: PhantomData }
    }

    /// Build a unit of work with the default abandonment policy: skip
    /// delivery when the waiting caller is already gone.
    pub fn envelope(
        msg: M,
        tx: Option<futures::channel::oneshot::Sender<MessageResult<M>>>,
    ) -> (r: Self)
        ensures
            r.stage() == Stage::Queued,
            r.queued_message() == Some(msg),
            r.reply_live() == (tx is Some),
            r.cancels_on_drop(),
    {
        RemoteEnvelope::new(msg, tx, true)
    }

    /// Push `result` into the reply sink, if one is still held, and
    /// finish. A send that fails because the caller stopped waiting is a
    /// normal, silent outcome, never an error: the contract here holds
    /// whichever way that send goes.
    fn finish(&mut self, result: MessageResult<M>) -> (r: Delivery)
        ensures
            r == Delivery::Delivered,
            final(self).stage() == Stage::Done,
            !final(self).reply_live(),
            final(self).cancels_on_drop() == old(self).cancels_on_drop(),
    {
        self.body = Body::Done;
        match self.tx.take() {
            Some(tx) => {
                let _ = reply_send(tx, result);
            },
            None => {},
        }
        Delivery::Delivered
    }
}

impl<A, M> EnvelopeProxy<A> for RemoteEnvelope<A, M> where A: Handler<M>, M: ResponseType {
    closed spec fn stage(&self) -> Stage {
        match self.body {
            Body::Queued(_) => Stage::Queued,
            Body::Suspended(_) => Stage::Suspended,
            Body::Done => Stage::Done,
        }
    }

    closed spec fn reply_live(&self) -> bool {
        self.tx is Some
    }

    closed spec fn cancels_on_drop(&self) -> bool {
        self.cancel_on_drop
    }

    fn handle(&mut self, act: &mut A) -> (r: Delivery) {
        match &self.body {
            Body::Queued(_) => {},
            _ => {
                return Delivery::Stale;
            },
        }
        if self.cancel_on_drop {
            let abandoned = match &self.tx {
                Some(tx) => reply_is_abandoned(tx),
                None => false,
            };
            if abandoned {
                self.body = Body::Done;
                self.tx = None;
                return Delivery::Aborted;
            }
        }
        let mut body = Body::Done;
        core::mem::swap(&mut body, &mut self.body);
        match body {
            Body::Queued(msg) => {
                match act.handle(msg) {
                    Response::Ready(result) => self.finish(result),
                    Response::Later(fut) => {
                        self.body = Body::Suspended(fut);
                        Delivery::Suspended
                    },
                }
            },
            _ => Delivery::Stale,
        }
    }

    fn poll(&mut self, act: &mut A) -> (r: Delivery) {
        match &self.body {
            Body::Suspended(_) => {},
            _ => {
                return Delivery::Stale;
            },
        }
        let mut body = Body::Done;
        core::mem::swap(&mut body, &mut self.body);
        match body {
            Body::Suspended(mut fut) => {
                match fut.poll_response(act) {
                    Some(result) => self.finish(result),
                    None => {
                        self.body = Body::Suspended(fut);
                        Delivery::Suspended
                    },
                }
            },
            _ => Delivery::Stale,
        }
    }
}

impl<A, M> ToEnvelope<A, M> for RemoteEnvelope<A, M> where A: Handler<M>, M: ResponseType {
    closed spec fn packed_message(&self) -> Option<M> {
        self.queued_message()
    }

    fn pack(
        msg: M,
        tx: Option<futures::channel::oneshot::Sender<MessageResult<M>>>,
        cancel_on_drop: bool,
    ) -> (e: Self) {
        RemoteEnvelope::new(msg, tx, cancel_on_drop)
    }

    fn pack_msg(
        msg: M,
        tx: Option<futures::channel::oneshot::Sender<MessageResult<M>>>,
    ) -> (e: Self) {
        RemoteEnvelope::envelope(msg, tx)
    }
}

/// The uniform queued unit itself: what a mailbox actually stores. It
/// carries one erased unit of work and forwards delivery to it, so queue
/// storage is monomorphic in `E` while construction stays fully typed per
/// message.
pub struct Envelope<A, E> where E: EnvelopeProxy<A> {
    inner: E,
    act: PhantomData<A>,
}

impl<A, E> Envelope<A, E> where E: EnvelopeProxy<A> {
    /// Wrap an already-built unit of work.
    pub fn new(envelop: E) -> (r: Self)
        ensures
            r.stage() == envelop.stage(),
            r.reply_live() == envelop.reply_live(),
            r.cancels_on_drop() == envelop.cancels_on_drop(),
    {
        Envelope { inner: envelop, act: PhantomData }
    }

    /// Pack a message for delivery on the caller's own execution context,
    /// choosing the abandonment policy.
    pub fn local<M>(
        msg: M,
        tx: Option<futures::channel::oneshot::Sender<MessageResult<M>>>,
        cancel_on_drop: bool,
    ) -> (r: Self) where M: ResponseType, E: ToEnvelope<A, M>
        ensures
            r.stage() == Stage::Queued,
            r.packed_message() == Some(msg),
            r.reply_live() == (tx is Some),
            r.cancels_on_drop() == cancel_on_drop,
    {
        Envelope { inner: E::pack(msg, tx, cancel_on_drop), act: PhantomData }
    }
}

impl<A, E, M> ToEnvelope<A, M> for Envelope<A, E> where E: ToEnvelope<A, M>, M: ResponseType {
    closed spec fn packed_message(&self) -> Option<M> {
        self.inner.packed_message()
    }

    fn pack(
        msg: M,
        tx: Option<futures::channel::oneshot::Sender<MessageResult<M>>>,
        cancel_on_drop: bool,
    ) -> (e: Self) {
        Envelope { inner: E::pack(msg, tx, cancel_on_drop), act: PhantomData }
    }

    fn pack_msg(
        msg: M,
        tx: Option<futures::channel::oneshot::Sender<MessageResult<M>>>,
    ) -> (e: Self) {
        Envelope { inner: E::pack_msg(msg, tx), act: PhantomData }
    }
}

impl<A, E> EnvelopeProxy<A> for Envelope<A, E> where E: EnvelopeProxy<A> {
    closed spec fn stage(&self) -> Stage {
        self.inner.stage()
    }

    closed spec fn reply_live(&self) -> bool {
        self.inner.reply_live()
    }

    closed spec fn cancels_on_drop(&self) -> bool {
        self.inner.cancels_on_drop()
    }

    fn handle(&mut self, act: &mut A) -> (r: Delivery) {
        self.inner.handle(act)
    }

    fn poll(&mut self, act: &mut A) -> (r: Delivery) {
        self.inner.poll(act)
    }
}

} // verus!
