mod actor_context;

pub use actor_context::ActorContext;

use crate::message::MessageHeader;
use vstd::prelude::*;

verus! {

/// The sending side of a context: the headers and the message being sent.
pub trait SenderContext {
    type Message;

    /// The header elements of the context.
    fn get_headers(&self) -> MessageHeader;

    fn get_message(&self) -> Self::Message;
}

/// The receiving side of a context.
pub trait ReceiverContext {
    fn receive();
}

} // verus!
