use vstd::prelude::*;

verus! {

use crate::envelope::{Delivery, Envelope, EnvelopeProxy, Stage, ToEnvelope};
use crate::mailbox::Mailbox;
use crate::message::{MessageResult, ResponseType};

/// The single-owner execution context of one actor: its in-thread queue
/// of pending units of work, and the suspended handler computations
/// registered for later polling. Exactly one context drives one actor, as
/// a strictly sequential, non-reentrant loop; a handle on this context
/// never leaves the thread that owns it, so enqueuing here is the
/// in-thread, never-failing send path.
pub struct Context<A, E> where E: EnvelopeProxy<A> {
    mailbox: Mailbox<Envelope<A, E>>,
    suspended: Vec<Envelope<A, E>>,
    stopped: bool,
}

impl<A, E> Context<A, E> where E: EnvelopeProxy<A> {
    /// The pending units of work, oldest first.
    pub closed spec fn queue(&self) -> Seq<Envelope<A, E>> {
        self.mailbox.contents()
    }

    /// How many suspended handler computations are registered.
    pub closed spec fn suspended_count(&self) -> nat {
        self.suspended@.len()
    }

    /// Whether this context has stopped taking new messages.
    pub closed spec fn is_stopped(&self) -> bool {
        self.stopped || self.mailbox.is_closed()
    }

    /// A fresh context: empty queue, nothing suspended, running.
    pub fn new() -> (r: Self)
        ensures
            r.queue() == Seq::<Envelope<A, E>>::empty(),
            r.suspended_count() == 0,
            !r.is_stopped(),
    {
        Context { mailbox: Mailbox::unbounded(), suspended: Vec::new(), stopped: false }
    }

    /// Stop taking new messages. Everything already queued or suspended
    /// stays and can still be driven; new sends are silently dropped.
    pub fn stop(&mut self)
        ensures
            final(self).is_stopped(),
            final(self).queue() == old(self).queue(),
            final(self).suspended_count() == old(self).suspended_count(),
    {
        self.stopped = true;
    }

    /// Pack a message into this context's uniform queued unit, choosing
    /// the abandonment policy.
    pub fn pack<M>(
        msg: M,
        tx: Option<futures::channel::oneshot::Sender<MessageResult<M>>>,
        cancel_on_drop: bool,
    ) -> (e: Envelope<A, E>) where M: ResponseType, E: ToEnvelope<A, M>
        ensures
            e.stage() == Stage::Queued,
            e.packed_message() == Some(msg),
            e.reply_live() == (tx is Some),
            e.cancels_on_drop() == cancel_on_drop,
    {
        Envelope::local(msg, tx, cancel_on_drop)
    }

    /// Pack a message into this context's uniform queued unit with the
    /// default abandonment policy.
    pub fn pack_msg<M>(
        msg: M,
        tx: Option<futures::channel::oneshot::Sender<MessageResult<M>>>,
    ) -> (e: Envelope<A, E>) where M: ResponseType, E: ToEnvelope<A, M>
        ensures
            e.stage() == Stage::Queued,
            e.packed_message() == Some(msg),
            e.reply_live() == (tx is Some),
            e.cancels_on_drop(),
    {
        Envelope::local(msg, tx, true)
    }

    /// The in-thread send: enqueue directly into this context's queue,
    /// with no reply path. Never blocks and never fails; a message for a
    /// stopped context is silently dropped, by design.
    pub fn send<M>(&mut self, msg: M) where M: ResponseType, E: ToEnvelope<A, M>
        ensures
            final(self).is_stopped() == old(self).is_stopped(),
            final(self).suspended_count() == old(self).suspended_count(),
            old(self).is_stopped() ==> final(self).queue() == old(self).queue(),
            !old(self).is_stopped() ==> final(self).queue().len() == old(self).queue().len() + 1
                && final(self).queue().drop_last() == old(self).queue() && final(self).queue().last().stage() == Stage::Queued && final(self).queue().last().packed_message() == Some(msg) && !final(self).queue().last().reply_live(),
    {
        if self.stopped {
            return ;
        }
        let env = Envelope::local(msg, None, true);
        let kept = self.mailbox.force_push(env);
        proof {
            if kept {
                assert(self.mailbox.contents().drop_last() =~= old(self).queue());
            }
        }
    }

    /// Enqueue an already-packed unit of work in-thread; silently dropped
    /// when the context has stopped.
    pub fn deliver(&mut self, env: Envelope<A, E>)
        ensures
            final(self).is_stopped() == old(self).is_stopped(),
            final(self).suspended_count() == old(self).suspended_count(),
            old(self).is_stopped() ==> final(self).queue() == old(self).queue(),
            !old(self).is_stopped() ==> final(self).queue() == old(self).queue().push(env),
    {
        if self.stopped {
            return ;
        }
        let _ = self.mailbox.force_push(env);
    }

    /// Register a unit whose handler computation is still running, to be
    /// driven by later polls: the one point where delivery hands control
    /// back to the loop around this context.
    pub fn spawn(&mut self, env: Envelope<A, E>)
        ensures
            final(self).is_stopped() == old(self).is_stopped(),
            final(self).queue() == old(self).queue(),
            final(self).suspended_count() == old(self).suspended_count() + 1,
    {
        self.suspended.push(env);
    }

    /// Dequeue the oldest unit of work and deliver it to the actor. A
    /// unit whose handler suspends is registered for later polls. Reports
    /// what the delivery step did, or `None` on an empty queue.
    pub fn run_one(&mut self, act: &mut A) -> (r: Option<Delivery>)
        ensures
            final(self).is_stopped() == old(self).is_stopped(),
            old(self).queue().len() == 0 ==> r is None && final(self).queue() == old(self).queue()
                && final(self).suspended_count() == old(self).suspended_count(),
            old(self).queue().len() > 0 ==> r is Some && final(self).queue() == old(self).queue().drop_first(),
            old(self).queue().len() > 0 && r == Some(Delivery::Suspended) ==> final(self).suspended_count() == old(self).suspended_count() + 1,
            old(self).queue().len() > 0 && r != Some(Delivery::Suspended) ==> final(self).suspended_count() == old(self).suspended_count(),
    {
        match self.mailbox.pop() {
            None => None,
            Some(mut env) => {
                let d = env.handle(act);
                if d == Delivery::Suspended {
                    self.suspended.push(env);
                }
                Some(d)
            },
        }
    }

    /// Deliver every queued unit of work to the actor, in queue order.
    /// Suspended handlers are registered for later polls, at most one per
    /// delivered unit.
    pub fn run_queue(&mut self, act: &mut A)
        ensures
            final(self).is_stopped() == old(self).is_stopped(),
            final(self).queue().len() == 0,
            final(self).suspended_count() <= old(self).suspended_count() + old(self).queue().len(),
    {
        while self.mailbox.len() > 0
            invariant
                self.is_stopped() == old(self).is_stopped(),
                self.suspended_count() + self.queue().len() <= old(self).suspended_count() + old(self).queue().len(),
            decreases self.queue().len(),
        {
            let _ = self.run_one(act);
        }
    }

    /// Poll the oldest suspended handler computation once. One that is
    /// still not ready stays registered; one that finishes is dropped
    /// after pushing its reply. Reports what the poll did, or `None` when
    /// nothing is suspended.
    pub fn poll_first(&mut self, act: &mut A) -> (r: Option<Delivery>)
        ensures
            final(self).is_stopped() == old(self).is_stopped(),
            final(self).queue() == old(self).queue(),
            old(self).suspended_count() == 0 ==> r is None && final(self).suspended_count() == 0,
            old(self).suspended_count() > 0 ==> r is Some,
            old(self).suspended_count() > 0 && r == Some(Delivery::Suspended) ==> final(self).suspended_count() == old(self).suspended_count(),
            old(self).suspended_count() > 0 && r != Some(Delivery::Suspended) ==> final(self).suspended_count() == old(self).suspended_count() - 1,
    {
        if self.suspended.len() == 0 {
            return None;
        }
        let mut env = self.suspended.remove(0);
        let d = env.poll(act);
        if d == Delivery::Suspended {
            self.suspended.push(env);
        }
        Some(d)
    }
}

} // verus!
