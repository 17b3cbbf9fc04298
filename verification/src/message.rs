mod header;
mod message_envelope;
mod pid;

pub use header::MessageHeader;
pub use message_envelope::MessageEnvelope;
pub use pid::Pid;

use std::sync::Arc;
use vstd::prelude::*;

verus! {

/// A value that can be delivered to a process; `Result` is the reply type a
/// sender may wait for.
pub trait Message {
    type Result;
}

impl<M: Message> Message for Arc<M> {
    type Result = M::Result;
}

impl<M: Message> Message for Box<M> {
    type Result = M::Result;
}

/// Marker for types that can be returned in reply to a message.
pub trait MessageResponse {}

/// Lifecycle notifications the runtime itself sends to a process, as opposed
/// to user messages.
#[derive(Clone, Copy, Debug, PartialEq, Eq, Structural)]
pub enum SystemMessage {
    Started,
    Stop,
}

} // verus!
