//! A verified message-delivery substrate for an actor runtime.
//!
//! Actors are isolated units of state that communicate only by sending
//! typed messages. This crate covers the delivery core of such a runtime:
//! the envelope that turns a typed message (with an optional reply channel)
//! into a uniform queued unit of work, the per-target FIFO mailbox with its
//! capacity and liveness rules, the cross-thread address operations
//! (`send`, `try_send`, `call`) layered on that mailbox, and the
//! caller-held request that resolves exactly once to a typed reply or a
//! delivery failure.

pub mod address;
pub mod context;
pub mod envelope;
pub mod mailbox;
pub mod message;
mod reply;

pub use address::Request;
pub use address::RequestFut;
pub use address::RequestPoll;
pub use address::SyncAddress;
pub use context::Context;
pub use envelope::Delivery;
pub use envelope::Envelope;
pub use envelope::EnvelopeProxy;
pub use envelope::RemoteEnvelope;
pub use envelope::Stage;
pub use envelope::ToEnvelope;
pub use mailbox::Mailbox;
pub use mailbox::SendError;
pub use message::Deferred;
pub use message::Handler;
pub use message::MessageResult;
pub use message::Response;
pub use message::ResponseFuture;
pub use message::ResponseType;
