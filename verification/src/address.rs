use vstd::prelude::*;

verus! {

use core::marker::PhantomData;
use crate::envelope::{Envelope, EnvelopeProxy, ToEnvelope, Stage};
use crate::mailbox::{Mailbox, SendError};
use crate::message::{ResponseType, MessageResult};
use crate::reply::{reply_channel, reply_try_recv, ReplyState};

/// `q1` is `q0` with exactly one more item at the back: what every
/// successful enqueue does to a queue, stated without naming the new item.
pub open spec fn grew_by_one<T>(q0: Seq<T>, q1: Seq<T>) -> bool {
    q1.len() == q0.len() + 1 && q1.drop_last() == q0
}

/// The cross-thread address of an actor: the producer-facing handle on the
/// actor's queue. In the running system many producers share this handle
/// (behind the runtime's synchronisation) while the actor's execution loop
/// is the one consumer; here the whole channel is held in one place, and
/// each operation states exactly what one atomic step does to it, for any
/// interleaving the embedding runtime produces.
///
/// Message payloads themselves need not all be transferable across
/// threads; whether a unit of work may cross a thread boundary is decided
/// by the queued-unit type `E`, never asserted here.
pub struct SyncAddress<A, E> where E: EnvelopeProxy<A> {
    tx: Mailbox<Envelope<A, E>>,
}

impl<A, E> SyncAddress<A, E> where E: EnvelopeProxy<A> {
    /// The pending units of work, oldest first.
    pub closed spec fn queue(&self) -> Seq<Envelope<A, E>> {
        self.tx.contents()
    }

    /// Whether the consumer side has been torn down.
    pub closed spec fn is_closed(&self) -> bool {
        self.tx.is_closed()
    }

    /// The queue's capacity bound, if any.
    pub closed spec fn bound(&self) -> Option<usize> {
        self.tx.bound()
    }

    /// Whether a capacity-respecting enqueue would be refused right now.
    pub open spec fn is_full(&self) -> bool {
        self.bound() is Some && self.queue().len() >= self.bound()->Some_0
    }

    /// Everything an operation leaves alone unless it says otherwise.
    pub open spec fn same_channel(self, other: Self) -> bool {
        self.queue() == other.queue() && self.is_closed() == other.is_closed() && self.bound()
            == other.bound()
    }

    /// Take ownership of a queue as the channel behind this address.
    pub fn new(queue: Mailbox<Envelope<A, E>>) -> (r: Self)
        ensures
            r.queue() == queue.contents(),
            r.is_closed() == queue.is_closed(),
            r.bound() == queue.bound(),
    {
        SyncAddress { tx: queue }
    }

    /// An address over a queue refusing `try_send` beyond `capacity`.
    pub fn bounded(capacity: usize) -> (r: Self)
        ensures
            r.queue() == Seq::<Envelope<A, E>>::empty(),
            !r.is_closed(),
            r.bound() == Some(capacity),
    {
        SyncAddress { tx: Mailbox::bounded(capacity) }
    }

    /// An address over a queue without a capacity bound.
    pub fn unbounded() -> (r: Self)
        ensures
            r.queue() == Seq::<Envelope<A, E>>::empty(),
            !r.is_closed(),
            r.bound() is None,
    {
        SyncAddress { tx: Mailbox::unbounded() }
    }

    /// Indicates whether the target is still alive: `true` before consumer
    /// teardown, `false` strictly after, with no way back.
    pub fn connected(&self) -> (r: bool)
        ensures
            r == !self.is_closed(),
    {
        self.tx.connected()
    }

    /// Number of pending units of work.
    pub fn queue_len(&self) -> (r: usize)
        ensures
            r == self.queue().len(),
    {
        self.tx.len()
    }

    /// Whether a capacity-respecting enqueue would be refused right now.
    pub fn at_capacity(&self) -> (r: bool)
        ensures
            r == self.is_full(),
    {
        self.tx.at_capacity()
    }

    /// Enqueue an already-packed unit of work, respecting the capacity
    /// bound; the building block under `try_send` and the retrying call.
    pub fn enqueue(&mut self, env: Envelope<A, E>) -> (r: Result<
        (),
        SendError<Envelope<A, E>>,
    >)
        ensures
            final(self).is_closed() == old(self).is_closed(),
            final(self).bound() == old(self).bound(),
            old(self).is_closed() ==> r == Result::<(), SendError<Envelope<A, E>>>::Err(
                SendError::Closed(env),
            ) && final(self).queue() == old(self).queue(),
            !old(self).is_closed() && old(self).is_full() ==> r == Result::<
                (),
                SendError<Envelope<A, E>>,
            >::Err(SendError::Full(env)) && final(self).queue() == old(self).queue(),
            !old(self).is_closed() && !old(self).is_full() ==> r is Ok && final(self).queue()
                == old(self).queue().push(env),
    {
        self.tx.try_push(env)
    }

    /// Fire-and-forget send: ignores the capacity bound and always comes
    /// back; a message for a target that is gone is silently dropped.
    /// When the target is alive the message is queued, with no reply path.
    pub fn send<M>(&mut self, msg: M) where M: ResponseType, E: ToEnvelope<A, M>
        ensures
            final(self).is_closed() == old(self).is_closed(),
            final(self).bound() == old(self).bound(),
            old(self).is_closed() ==> final(self).queue() == old(self).queue(),
            !old(self).is_closed() ==> grew_by_one(old(self).queue(), final(self).queue())
                && final(self).queue().last().stage() == Stage::Queued && final(self).queue().last().packed_message() == Some(msg) && !final(self).queue().last().reply_live(),
    {
        let env = Envelope::local(msg, None, true);
        let kept = self.tx.force_push(env);
        proof {
            if kept {
                assert(self.tx.contents().drop_last() =~= old(self).queue());
            }
        }
    }

    /// Enqueue respecting the capacity bound. Fails with `Full`, handing
    /// the message back intact, when the queue is at capacity, and with
    /// `Closed`, likewise, when the consumer is gone; otherwise the
    /// message is queued, with no reply path.
    pub fn try_send<M>(&mut self, msg: M) -> (r: Result<(), SendError<M>>) where
        M: ResponseType,
        E: ToEnvelope<A, M>,

        ensures
            final(self).is_closed() == old(self).is_closed(),
            final(self).bound() == old(self).bound(),
            old(self).is_closed() ==> r == Result::<(), SendError<M>>::Err(SendError::Closed(msg))
                && final(self).queue() == old(self).queue(),
            !old(self).is_closed() && old(self).is_full() ==> r == Result::<
                (),
                SendError<M>,
            >::Err(SendError::Full(msg)) && final(self).queue() == old(self).queue(),
            !old(self).is_closed() && !old(self).is_full() ==> r is Ok && grew_by_one(
                old(self).queue(),
                final(self).queue(),
            ) && final(self).queue().last().stage() == Stage::Queued && final(self).queue().last().packed_message() == Some(msg) && !final(self).queue().last().reply_live(),
    {
        if !self.tx.connected() {
            return Err(SendError::Closed(msg));
        }
        if self.tx.at_capacity() {
            return Err(SendError::Full(msg));
        }
        let env = <Envelope<A, E> as ToEnvelope<A, M>>::pack_msg(msg, None);
        match self.tx.try_push(env) {
            Ok(()) => {
                proof {
                    assert(self.tx.contents().drop_last() =~= old(self).queue());
                }
                Ok(())
            },
            Err(_) => vstd::pervasive::unreached(),  // excluded: neither closed nor full
        }
    }

    /// Send with a reply path and hand back the caller-held request. The
    /// three immediate outcomes: queued (the request parks on the reply
    /// channel), queue momentarily full (the request buffers the message
    /// and retries on each poll), or consumer gone (the request is
    /// terminally failed). Only in the first case does the queue change.
    pub fn call_fut<M>(&mut self, msg: M) -> (r: RequestFut<A, M>) where
        M: ResponseType,
        E: ToEnvelope<A, M>,

        ensures
            !r.is_resolved(),
            final(self).is_closed() == old(self).is_closed(),
            final(self).bound() == old(self).bound(),
            old(self).is_closed() ==> r.is_failed() && final(self).queue() == old(self).queue(),
            !old(self).is_closed() && old(self).is_full() ==> r.is_retrying()
                && r.retrying_message() == Some(msg) && final(self).queue() == old(self).queue(),
            !old(self).is_closed() && !old(self).is_full() ==> r.is_pending() && grew_by_one(
                old(self).queue(),
                final(self).queue(),
            ) && final(self).queue().last().stage() == Stage::Queued && final(self).queue().last().packed_message() == Some(msg) && final(self).queue().last().reply_live() && final(self).queue().last().cancels_on_drop(),
    {
        if !self.tx.connected() {
            return RequestFut::failed();
        }
        if self.tx.at_capacity() {
            return RequestFut::retrying(msg);
        }
        let (tx, rx) = reply_channel::<MessageResult<M>>();
        let env = <Envelope<A, E> as ToEnvelope<A, M>>::pack_msg(msg, Some(tx));
        match self.tx.try_push(env) {
            Ok(()) => {
                proof {
                    assert(self.tx.contents().drop_last() =~= old(self).queue());
                }
                RequestFut::pending(rx)
            },
            Err(_) => vstd::pervasive::unreached(),  // excluded: neither closed nor full
        }
    }

    /// `call_fut`, with the caller actor named for symmetry with the
    /// in-context calling convention.
    pub fn call<B, M>(&mut self, _caller: &B, msg: M) -> (r: Request<A, B, M>) where
        M: ResponseType,
        E: ToEnvelope<A, M>,

        ensures
            !r.is_resolved(),
            final(self).is_closed() == old(self).is_closed(),
            final(self).bound() == old(self).bound(),
            old(self).is_closed() ==> r.is_failed() && final(self).queue() == old(self).queue(),
            !old(self).is_closed() && old(self).is_full() ==> r.is_retrying()
                && r.retrying_message() == Some(msg) && final(self).queue() == old(self).queue(),
            !old(self).is_closed() && !old(self).is_full() ==> r.is_pending() && grew_by_one(
                old(self).queue(),
                final(self).queue(),
            ) && final(self).queue().last().stage() == Stage::Queued && final(self).queue().last().packed_message() == Some(msg) && final(self).queue().last().reply_live() && final(self).queue().last().cancels_on_drop(),
    {
        Request { inner: self.call_fut(msg), caller: PhantomData }
    }

    /// This address, viewed as a subscriber for one message type: the
    /// send-only capability. The address already is one; the view is the
    /// value itself.
    pub fn into_subscriber<M>(self) -> (r: Self) where M: ResponseType, E: ToEnvelope<A, M>
        ensures
            r == self,
    {
        self
    }

    /// Consumer side: tear the channel down. Producers are refused from
    /// now on; `connected` reports `false` forever after.
    pub fn close(&mut self)
        ensures
            final(self).is_closed(),
            final(self).queue() == old(self).queue(),
            final(self).bound() == old(self).bound(),
    {
        self.tx.close();
    }

    /// Consumer side: dequeue the oldest pending unit of work, if any.
    pub fn recv(&mut self) -> (r: Option<Envelope<A, E>>)
        ensures
            final(self).is_closed() == old(self).is_closed(),
            final(self).bound() == old(self).bound(),
            old(self).queue().len() == 0 ==> r is None && final(self).queue() == old(self).queue(),
            old(self).queue().len() > 0 ==> r == Some(old(self).queue()[0]) && final(self).queue()
                == old(self).queue().drop_first(),
    {
        self.tx.pop()
    }
}

/// What one poll of a request reports.
pub enum RequestPoll<M> where M: ResponseType {
    /// Not resolved yet; poll again later.
    NotReady,
    /// The typed reply, as the handler produced it.
    Resolved(Result<<M as ResponseType>::Item, <M as ResponseType>::Error>),
    /// Delivery failed: the target was gone, or the envelope was destroyed
    /// before the handler's reply could be delivered. Terminal.
    Canceled,
}

/// A caller-held in-flight call: parked on the consumer half of the reply
/// channel, buffering its message for retry after a transient `Full`, or
/// terminally failed. It resolves exactly once — to a typed reply or to a
/// delivery failure — and dropping it at any point simply abandons the
/// wait; the delivery side treats that as a normal, silent outcome.
pub struct RequestFut<A, M> where M: ResponseType {
    state: CallState<M>,
    act: PhantomData<A>,
}

enum CallState<M> where M: ResponseType {
    Pending(futures::channel::oneshot::Receiver<MessageResult<M>>),
    Retrying(M),
    Failed,
    Done,
}

impl<A, M> RequestFut<A, M> where M: ResponseType {
    /// Parked on a reply channel, waiting for the handler's answer.
    pub closed spec fn is_pending(&self) -> bool {
        self.state is Pending
    }

    /// Buffering its message after a transient `Full`; re-attempts the
    /// enqueue on each poll.
    pub closed spec fn is_retrying(&self) -> bool {
        self.state is Retrying
    }

    /// The buffered message, while retrying.
    pub closed spec fn retrying_message(&self) -> Option<M> {
        match self.state {
            CallState::Retrying(m) => Some(m),
            _ => None,
        }
    }

    /// Terminally failed; the next poll reports `Canceled` and resolves.
    pub closed spec fn is_failed(&self) -> bool {
        self.state is Failed
    }

    /// Resolved: a poll already reported the reply or the failure. A
    /// request resolves at most once, so polling past this point is a
    /// caller error, excluded by contract.
    pub closed spec fn is_resolved(&self) -> bool {
        self.state is Done
    }

    pub(crate) fn pending(rx: futures::channel::oneshot::Receiver<MessageResult<M>>) -> (r: Self)
        ensures
            r.is_pending(),
            !r.is_resolved(),
    {
        RequestFut { state: CallState::Pending(rx), act: PhantomData }
    }

    pub(crate) fn retrying(msg: M) -> (r: Self)
        ensures
            r.is_retrying(),
            r.retrying_message() == Some(msg),
            !r.is_resolved(),
    {
        RequestFut { state: CallState::Retrying(msg), act: PhantomData }
    }

    pub(crate) fn failed() -> (r: Self)
        ensures
            r.is_failed(),
            !r.is_resolved(),
    {
        RequestFut { state: CallState::Failed, act: PhantomData }
    }

    /// Drive the call one step against the channel it was issued on.
    ///
    /// While retrying, a poll re-attempts the enqueue: it parks on a fresh
    /// reply path once there is room, keeps the message buffered while the
    /// queue stays full, and resolves to `Canceled` if the consumer is
    /// found gone. While pending, a poll asks the reply channel: the
    /// handler's answer resolves the call, an abandoned producer resolves
    /// it to `Canceled`, and otherwise it stays parked. A failed call
    /// resolves to `Canceled` at once. Exactly one poll ever reports
    /// something other than `NotReady`.
    pub fn poll<E>(&mut self, addr: &mut SyncAddress<A, E>) -> (r: RequestPoll<M>) where
        E: ToEnvelope<A, M>,

        requires
            !old(self).is_resolved(),
        ensures
            final(addr).is_closed() == old(addr).is_closed(),
            final(addr).bound() == old(addr).bound(),
            (r is NotReady) == !final(self).is_resolved(),
            old(self).is_failed() ==> r is Canceled && final(addr).same_channel(*old(addr)),
            old(self).is_pending() ==> final(addr).same_channel(*old(addr)) && (r is NotReady
                ==> final(self).is_pending()) && !(r is NotReady) == (final(self).is_resolved()),
            old(self).is_retrying() && old(addr).is_closed() ==> r is Canceled && final(addr).same_channel(*old(addr)),
            old(self).is_retrying() && !old(addr).is_closed() && old(addr).is_full() ==> r
                is NotReady && final(self).is_retrying() && final(self).retrying_message() == old(self).retrying_message() && final(addr).same_channel(*old(addr)),
            old(self).is_retrying() && !old(addr).is_closed() && !old(addr).is_full() ==> r
                is NotReady && final(self).is_pending() && grew_by_one(
                old(addr).queue(),
                final(addr).queue(),
            ) && final(addr).queue().last().stage() == Stage::Queued && final(addr).queue().last().packed_message() == old(self).retrying_message() && final(addr).queue().last().reply_live(),
    {
        let mut state = CallState::Done;
        core::mem::swap(&mut state, &mut self.state);
        match state {
            CallState::Failed => RequestPoll::Canceled,
            CallState::Done => vstd::pervasive::unreached(),  // excluded by contract
            CallState::Retrying(msg) => {
                if !addr.connected() {
                    RequestPoll::Canceled
                } else if addr.at_capacity() {
                    self.state = CallState::Retrying(msg);
                    RequestPoll::NotReady
                } else {
                    let (tx, rx) = reply_channel::<MessageResult<M>>();
                    let env = <Envelope<A, E> as ToEnvelope<A, M>>::pack_msg(msg, Some(tx));
                    match addr.enqueue(env) {
                        Ok(()) => {
                            proof {
                                assert(addr.queue().drop_last() =~= old(addr).queue());
                            }
                            self.state = CallState::Pending(rx);
                            RequestPoll::NotReady
                        },
                        Err(_) => vstd::pervasive::unreached(),  // excluded: neither closed nor full
                    }
                }
            },
            CallState::Pending(mut rx) => {
                match reply_try_recv(&mut rx) {
                    ReplyState::Ready(result) => RequestPoll::Resolved(result),
                    ReplyState::NotYet => {
                        self.state = CallState::Pending(rx);
                        RequestPoll::NotReady
                    },
                    ReplyState::Abandoned => RequestPoll::Canceled,
                }
            },
        }
    }
}

/// A caller-held in-flight call issued from within another actor's
/// context: the same state machine as [`RequestFut`], with the calling
/// actor's type carried for the in-context calling convention.
pub struct Request<A, B, M> where M: ResponseType {
    inner: RequestFut<A, M>,
    caller: PhantomData<B>,
}

impl<A, B, M> Request<A, B, M> where M: ResponseType {
    /// Parked on a reply channel, waiting for the handler's answer.
    pub closed spec fn is_pending(&self) -> bool {
        self.inner.is_pending()
    }

    /// Buffering its message after a transient `Full`.
    pub closed spec fn is_retrying(&self) -> bool {
        self.inner.is_retrying()
    }

    /// The buffered message, while retrying.
    pub closed spec fn retrying_message(&self) -> Option<M> {
        self.inner.retrying_message()
    }

    /// Terminally failed; the next poll reports `Canceled` and resolves.
    pub closed spec fn is_failed(&self) -> bool {
        self.inner.is_failed()
    }

    /// Resolved: a poll already reported the reply or the failure.
    pub closed spec fn is_resolved(&self) -> bool {
        self.inner.is_resolved()
    }

    /// Drive the call one step against the channel it was issued on; the
    /// rules are those of [`RequestFut::poll`].
    pub fn poll<E>(&mut self, addr: &mut SyncAddress<A, E>) -> (r: RequestPoll<M>) where
        E: ToEnvelope<A, M>,

        requires
            !old(self).is_resolved(),
        ensures
            final(addr).is_closed() == old(addr).is_closed(),
            final(addr).bound() == old(addr).bound(),
            (r is NotReady) == !final(self).is_resolved(),
            old(self).is_failed() ==> r is Canceled && final(addr).same_channel(*old(addr)),
            old(self).is_pending() ==> final(addr).same_channel(*old(addr)) && (r is NotReady
                ==> final(self).is_pending()),
            old(self).is_retrying() && old(addr).is_closed() ==> r is Canceled && final(addr).same_channel(*old(addr)),
            old(self).is_retrying() && !old(addr).is_closed() && old(addr).is_full() ==> r
                is NotReady && final(self).is_retrying() && final(self).retrying_message() == old(self).retrying_message() && final(addr).same_channel(*old(addr)),
            old(self).is_retrying() && !old(addr).is_closed() && !old(addr).is_full() ==> r
                is NotReady && final(self).is_pending() && grew_by_one(
                old(addr).queue(),
                final(addr).queue(),
            ) && final(addr).queue().last().stage() == Stage::Queued && final(addr).queue().last().packed_message() == old(self).retrying_message() && final(addr).queue().last().reply_live(),
    {
        self.inner.poll(addr)
    }
}

} // verus!
