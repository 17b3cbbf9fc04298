use crate::message::{Message, MessageEnvelope};
use vstd::prelude::*;

verus! {

/// The context an actor's handlers run in: the envelope being processed.
pub struct ActorContext<M> where M: Message + Send + 'static, M::Result: Send {
    message: MessageEnvelope<M>,
}

impl<M> ActorContext<M> where M: Message + Send + 'static, M::Result: Send {
    pub fn new(message: MessageEnvelope<M>) -> (c: Self)
        ensures
            c.spec_envelope() == message,
    {
        ActorContext { message }
    }

    /// The envelope being processed.
    pub closed spec fn spec_envelope(&self) -> MessageEnvelope<M> {
        self.message
    }

    pub fn envelope(&self) -> (r: &MessageEnvelope<M>)
        ensures
            *r == self.spec_envelope(),
    {
        &self.message
    }
}

} // verus!
