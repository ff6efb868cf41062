use vstd::prelude::*;

verus! {

/// Outcome of an enqueue attempt that could not be completed. In either
/// case the rejected message is handed back to the caller intact, so the
/// caller may retry it or drop it.
pub enum SendError<M> {
    /// The queue is at capacity. Non-fatal: a later attempt may succeed
    /// once the consumer has drained an item.
    Full(M),
    /// The consumer side is gone. Terminal for this queue: no later
    /// attempt can succeed.
    Closed(M),
}

impl<M> SendError<M> {
    /// Recover the rejected message.
    pub fn into_inner(self) -> (r: M)
        ensures
            self is Full ==> r == self->Full_0,
            self is Closed ==> r == self->Closed_0,
    {
        match self {
            SendError::Full(m) => m,
            SendError::Closed(m) => m,
        }
    }
}

/// The per-target queue of pending units of work: a FIFO with an optional
/// capacity bound and a liveness flag for its consumer.
///
/// The queue is the single shared resource between the producers (addresses)
/// and the one consumer (the target's execution loop). Here it is held by a
/// single owner, and every operation states exactly how it changes the queue,
/// so an embedding runtime that shares it (for instance behind a lock) gets
/// the same guarantees for each atomic operation.
pub struct Mailbox<T> {
    items: Vec<T>,
    capacity: Option<usize>,
    closed: bool,
}

impl<T> Mailbox<T> {
    /// The pending items, oldest first.
    pub closed spec fn contents(&self) -> Seq<T> {
        self.items@
    }

    /// Whether the consumer side has been torn down.
    pub closed spec fn is_closed(&self) -> bool {
        self.closed
    }

    /// The capacity bound, if this queue is bounded.
    pub closed spec fn bound(&self) -> Option<usize> {
        self.capacity
    }

    /// A bounded queue refuses `try_push` at or above its bound.
    pub open spec fn is_full(&self) -> bool {
        self.bound() is Some && self.contents().len() >= self.bound()->Some_0
    }

    /// A queue whose bound admits at least one item is created with
    /// `bounded`; `unbounded` never reports itself full.
    pub fn bounded(capacity: usize) -> (r: Self)
        ensures
            r.contents() == Seq::<T>::empty(),
            !r.is_closed(),
            r.bound() == Some(capacity),
    {
        Mailbox { items: Vec::new(), capacity: Some(capacity), closed: false }
    }

    /// A queue that accepts any number of pending items.
    pub fn unbounded() -> (r: Self)
        ensures
            r.contents() == Seq::<T>::empty(),
            !r.is_closed(),
            r.bound() is None,
    {
        Mailbox { items: Vec::new(), capacity: None, closed: false }
    }

    /// True iff the consumer side is still there. Once this reports
    /// `false` it reports `false` forever: no operation reopens a queue.
    pub fn connected(&self) -> (r: bool)
        ensures
            r == !self.is_closed(),
    {
        !self.closed
    }

    /// Number of pending items.
    pub fn len(&self) -> (r: usize)
        ensures
            r == self.contents().len(),
    {
        self.items.len()
    }

    /// Whether `try_push` would currently report `Full`.
    pub fn at_capacity(&self) -> (r: bool)
        ensures
            r == self.is_full(),
    {
        match self.capacity {
            Some(c) => self.items.len() >= c,
            None => false,
        }
    }

    /// Consumer teardown. Pending items stay readable by the consumer;
    /// producers are refused from now on.
    pub fn close(&mut self)
        ensures
            final(self).is_closed(),
            final(self).contents() == old(self).contents(),
            final(self).bound() == old(self).bound(),
    {
        self.closed = true;
    }

    /// Enqueue respecting the capacity bound: refused with `Closed` after
    /// consumer teardown and with `Full` at capacity, in both cases handing
    /// the item back intact and leaving the queue untouched.
    pub fn try_push(&mut self, item: T) -> (r: Result<(), SendError<T>>)
        ensures
            final(self).is_closed() == old(self).is_closed(),
            final(self).bound() == old(self).bound(),
            old(self).is_closed() ==> r == Result::<(), SendError<T>>::Err(
                SendError::Closed(item),
            ) && final(self).contents() == old(self).contents(),
            !old(self).is_closed() && old(self).is_full() ==> r == Result::<
                (),
                SendError<T>,
            >::Err(SendError::Full(item)) && final(self).contents() == old(self).contents(),
            !old(self).is_closed() && !old(self).is_full() ==> r is Ok && final(self).contents()
                == old(self).contents().push(item),
    {
        if self.closed {
            Err(SendError::Closed(item))
        } else if self.at_capacity() {
            Err(SendError::Full(item))
        } else {
            self.items.push(item);
            Ok(())
        }
    }

    /// Best-effort enqueue: ignores the capacity bound, and silently drops
    /// the item after consumer teardown. Returns whether the item was kept,
    /// so a caller that does care can still find out.
    pub fn force_push(&mut self, item: T) -> (r: bool)
        ensures
            final(self).is_closed() == old(self).is_closed(),
            final(self).bound() == old(self).bound(),
            old(self).is_closed() ==> r == false && final(self).contents() == old(self).contents(),
            !old(self).is_closed() ==> r == true && final(self).contents() == old(self).contents().push(item),
    {
        if self.closed {
            false
        } else {
            self.items.push(item);
            true
        }
    }

    /// Consumer side: dequeue the oldest pending item, if any.
    pub fn pop(&mut self) -> (r: Option<T>)
        ensures
            final(self).is_closed() == old(self).is_closed(),
            final(self).bound() == old(self).bound(),
            old(self).contents().len() == 0 ==> r is None && final(self).contents() == old(self).contents(),
            old(self).contents().len() > 0 ==> r == Some(old(self).contents()[0]) && final(self).contents() == old(self).contents().drop_first(),
    {
        if self.items.len() == 0 {
            None
        } else {
            let first = self.items.remove(0);
            proof {
                assert(self.items@ =~= old(self).items@.drop_first());
            }
            Some(first)
        }
    }
}

/// The order in which a queue holding `q` hands its items to the consumer:
/// repeated `pop` yields the items front to back.
pub open spec fn drain_order<T>(q: Seq<T>) -> Seq<T>
    decreases q.len(),
{
    if q.len() == 0 {
        Seq::empty()
    } else {
        seq![q[0]] + drain_order(q.drop_first())
    }
}

/// The queue contents after enqueuing `sent` in order, front to back.
pub open spec fn enqueue_all<T>(q: Seq<T>, sent: Seq<T>) -> Seq<T>
    decreases sent.len(),
{
    if sent.len() == 0 {
        q
    } else {
        enqueue_all(q.push(sent[0]), sent.drop_first())
    }
}

/// FIFO per target: items sent in order through one queue reach the
/// consumer in that same order. Enqueuing `sent` into an empty queue and
/// draining it reproduces `sent` exactly.
pub proof fn lemma_fifo_order<T>(sent: Seq<T>)
    ensures
        drain_order(enqueue_all(Seq::<T>::empty(), sent)) == sent,
{
    lemma_enqueue_all_app(Seq::<T>::empty(), sent);
    assert(Seq::<T>::empty() + sent =~= sent);
    lemma_drain_order_id(sent);
}

/// Enqueuing appends: the queue afterwards is the old queue followed by
/// everything sent, in order.
pub proof fn lemma_enqueue_all_app<T>(q: Seq<T>, sent: Seq<T>)
    ensures
        enqueue_all(q, sent) == q + sent,
    decreases sent.len(),
{
    if sent.len() == 0 {
        assert(q + sent =~= q);
    } else {
        lemma_enqueue_all_app(q.push(sent[0]), sent.drop_first());
        assert(q.push(sent[0]) + sent.drop_first() =~= q + sent);
    }
}

/// Draining preserves order: the consumer sees exactly the queue contents,
/// front to back.
pub proof fn lemma_drain_order_id<T>(q: Seq<T>)
    ensures
        drain_order(q) == q,
    decreases q.len(),
{
    if q.len() == 0 {
        assert(drain_order(q) =~= q);
    } else {
        lemma_drain_order_id(q.drop_first());
        assert(seq![q[0]] + q.drop_first() =~= q);
    }
}

} // verus!
