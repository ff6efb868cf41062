use vstd::prelude::*;

verus! {

/// The producer half of a one-shot reply channel: the capability to deliver
/// exactly one value to exactly one waiting consumer.
#[verifier::external_type_specification]
#[verifier::external_body]
#[verifier::reject_recursive_types(T)]
pub struct ExSender<T>(futures::channel::oneshot::Sender<T>);

/// The consumer half of a one-shot reply channel.
#[verifier::external_type_specification]
#[verifier::external_body]
#[verifier::reject_recursive_types(T)]
pub struct ExReceiver<T>(futures::channel::oneshot::Receiver<T>);

/// The error with which the consumer half reports a dropped producer.
/// Declared only so that the receiver half's surface is visible to the
/// verifier; the delivery logic maps it to `ReplyState::Abandoned`.
#[verifier::external_type_specification]
#[verifier::external_body]
pub struct ExCanceled(futures::channel::oneshot::Canceled);

/// What the consumer half reports when asked for the reply without
/// blocking.
pub(crate) enum ReplyState<T> {
    /// The producer delivered this value.
    Ready(T),
    /// No value delivered at the time of the query, and the producer
    /// half had not been dropped.
    NotYet,
    /// The producer half was dropped without delivering a value: the
    /// envelope carrying it was destroyed undelivered, or the runtime
    /// discarded it. Observed by the caller as "closed without reply".
    Abandoned,
}

/// Relies on futures::channel::oneshot::channel: creates a fresh one-shot
/// channel and returns its two halves. Which half observes what is shared
/// state between the two values, so nothing is claimed here beyond the
/// contracts of the operations below.
#[verifier::external_body]
pub(crate) fn reply_channel<T>() -> (futures::channel::oneshot::Sender<T>, futures::channel::oneshot::Receiver<T>) {
    futures::channel::oneshot::channel()
}

/// Relies on futures::channel::oneshot::Sender::is_canceled: reports whether
/// the consumer half has been dropped. The answer depends on the other half,
/// possibly on another thread, so no value is pinned down: the delivery
/// logic must be correct whichever answer comes back.
#[verifier::external_body]
pub(crate) fn reply_is_abandoned<T>(tx: &futures::channel::oneshot::Sender<T>) -> bool {
    tx.is_canceled()
}

/// Relies on futures::channel::oneshot::Sender::send: consumes the producer
/// half and delivers the value, or hands the value back intact when the
/// consumer half was already dropped.
#[verifier::external_body]
pub(crate) fn reply_send<T>(tx: futures::channel::oneshot::Sender<T>, value: T) -> (r: Result<(), T>)
    ensures
        r is Err ==> r->Err_0 == value,
{
    tx.send(value)
}

/// Relies on futures::channel::oneshot::Receiver::try_recv: reports the
/// current state of the channel without blocking. The answer depends on the
/// producer half, so no value is pinned down; the caller states what holds
/// of every outcome.
#[verifier::external_body]
pub(crate) fn reply_try_recv<T>(rx: &mut futures::channel::oneshot::Receiver<T>) -> ReplyState<T> {
    match rx.try_recv() {
        Ok(Some(value)) => ReplyState::Ready(value),
        Ok(None) => ReplyState::NotYet,
        Err(_) => ReplyState::Abandoned,
    }
}

} // verus!
