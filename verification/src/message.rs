use vstd::prelude::*;

verus! {

/// The message contract: a value type declares itself deliverable by fixing
/// the type of a successful reply and the type of a handler-side failure.
/// There is no behaviour here; every other component is generic over it.
pub trait ResponseType {
    /// The success payload of a reply to this message.
    type Item;

    /// The failure payload of a reply to this message.
    type Error;
}

/// What a handler ultimately produces for a message `M`.
pub type MessageResult<M> = Result<<M as ResponseType>::Item, <M as ResponseType>::Error>;

/// What a handler returns when invoked: a reply that is ready immediately,
/// or a computation of type `F` that the execution loop must drive to
/// completion by polling it against the actor.
pub enum Response<M: ResponseType, F> {
    /// The reply is available now.
    Ready(Result<<M as ResponseType>::Item, <M as ResponseType>::Error>),
    /// The reply will be produced later; poll the carried computation.
    Later(F),
}

/// A suspended handler computation: a poll-once operation that either
/// yields the reply or asks to be polled again. Implementations are
/// supplied by the actor author; the delivery core only relies on the
/// shape of the answer, never on which answer comes.
pub trait ResponseFuture<A, M: ResponseType> {
    /// Drive the computation one step with exclusive access to the actor.
    /// `Some` carries the finished reply; `None` means not ready yet.
    fn poll_response(&mut self, act: &mut A) -> Option<
        Result<<M as ResponseType>::Item, <M as ResponseType>::Error>,
    >;
}

/// A ready-made suspended computation: yields its reply after a fixed
/// number of extra polls. With zero ticks it resolves on the first poll.
/// Useful for handlers that want to yield control before answering.
pub struct Deferred<M: ResponseType> {
    ticks: u64,
    value: Option<Result<<M as ResponseType>::Item, <M as ResponseType>::Error>>,
}

impl<M: ResponseType> Deferred<M> {
    /// The reply still to be delivered, if it has not been taken yet.
    pub closed spec fn stored(&self) -> Option<
        Result<<M as ResponseType>::Item, <M as ResponseType>::Error>,
    > {
        self.value
    }

    /// Polls left before the reply is handed out.
    pub closed spec fn polls_left(&self) -> u64 {
        self.ticks
    }

    /// A computation that answers `value` after `ticks` extra polls.
    pub fn new(
        ticks: u64,
        value: Result<<M as ResponseType>::Item, <M as ResponseType>::Error>,
    ) -> (r: Self)
        ensures
            r.stored() == Some(value),
            r.polls_left() == ticks,
    {
        Deferred { ticks, value: Some(value) }
    }
}

impl<A, M: ResponseType> ResponseFuture<A, M> for Deferred<M> {
    fn poll_response(&mut self, act: &mut A) -> (r: Option<
        Result<<M as ResponseType>::Item, <M as ResponseType>::Error>,
    >)
        ensures
            old(self).polls_left() > 0 ==> r is None && final(self).polls_left() == old(self).polls_left() - 1 && final(self).stored() == old(self).stored(),
            old(self).polls_left() == 0 ==> r == old(self).stored() && final(self).polls_left()
                == 0 && final(self).stored() is None,
            *final(act) == *old(act),
    {
        if self.ticks > 0 {
            self.ticks = self.ticks - 1;
            None
        } else {
            self.value.take()
        }
    }
}

/// The binding between an actor type and one message type it accepts.
/// Implemented by the actor author; invoked by the delivery core with
/// exclusive, non-reentrant access to the actor's state. The associated
/// type fixes, per binding, the shape of a reply that is not ready
/// immediately.
pub trait Handler<M: ResponseType>: Sized {
    /// The suspended-computation type this binding uses for replies that
    /// resolve later.
    type Future: ResponseFuture<Self, M>;

    /// Handle one message, producing a reply now or a computation to poll.
    fn handle(&mut self, msg: M) -> Response<M, Self::Future>;
}

} // verus!
