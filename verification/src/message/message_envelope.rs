use crate::message::{Message, MessageHeader, Pid};
use vstd::prelude::*;

verus! {

/// Adds headers and sender information to a message.
pub struct MessageEnvelope<M> where M: Message + Send, M::Result: Send {
    sender: Option<Pid>,
    message: M,
    header: MessageHeader,
}

impl<M> MessageEnvelope<M> where M: Message + Send + 'static, M::Result: Send {
    /// The wrapped message.
    pub closed spec fn spec_message(&self) -> M {
        self.message
    }

    /// The sender recorded in the envelope, if any.
    pub closed spec fn spec_sender(&self) -> Option<Pid> {
        self.sender
    }

    /// The headers of the envelope, as a map from names to values.
    pub closed spec fn spec_header(&self) -> Map<Seq<char>, Seq<char>> {
        self.header@
    }

    pub closed spec fn wf(&self) -> bool {
        self.header.wf()
    }

    /// Creates a new message envelope; a missing header means no header
    /// elements.
    pub fn new(message: M, sender: Option<Pid>, header: Option<MessageHeader>) -> (r: Self)
        requires
            header matches Some(h) ==> h.wf(),
        ensures
            r.wf(),
            r.spec_message() == message,
            r.spec_sender() == sender,
            r.spec_header() == (match header {
                Some(h) => h@,
                None => Map::<Seq<char>, Seq<char>>::empty(),
            }),
    {
        let h = match header {
            Some(h) => h,
            None => MessageHeader::new(),
        };
        MessageEnvelope { message, sender, header: h }
    }

    /// Wraps a message with no sender and no header elements.
    pub fn wrap(message: M) -> (r: Self)
        ensures
            r.wf(),
            r.spec_message() == message,
            r.spec_sender() is None,
            r.spec_header() == Map::<Seq<char>, Seq<char>>::empty(),
    {
        Self::new(message, None, None)
    }

    pub fn get_message(&self) -> (r: &M)
        ensures
            *r == self.spec_message(),
    {
        &self.message
    }

    pub fn get_sender(&self) -> (r: &Option<Pid>)
        ensures
            *r == self.spec_sender(),
    {
        &self.sender
    }

    pub fn get_header(&self) -> (r: &MessageHeader)
        ensures
            r@ == self.spec_header(),
            self.wf() ==> r.wf(),
    {
        &self.header
    }

    /// Records `sender` in the envelope.
    pub fn with_sender(&mut self, sender: Pid)
        ensures
            final(self).spec_sender() == Some(sender),
            final(self).spec_message() == old(self).spec_message(),
            final(self).spec_header() == old(self).spec_header(),
            final(self).wf() == old(self).wf(),
    {
        self.sender = Some(sender);
    }

    /// Replaces the envelope's headers with `header`.
    pub fn with_header(&mut self, header: MessageHeader)
        requires
            header.wf(),
        ensures
            final(self).wf(),
            final(self).spec_header() == header@,
            final(self).spec_message() == old(self).spec_message(),
            final(self).spec_sender() == old(self).spec_sender(),
    {
        self.header = header;
    }

    /// Extends the message envelope with additional headers; middleware and
    /// context decorators use this. For security reasons around remoting,
    /// for any header
    /// name already present in the envelope, its value is overwritten with
    /// the value from `header`.
    pub fn merge_header(&mut self, header: MessageHeader)
        requires
            old(self).wf(),
            header.wf(),
        ensures
            final(self).wf(),
            final(self).spec_header() == old(self).spec_header().union_prefer_right(header@),
            final(self).spec_message() == old(self).spec_message(),
            final(self).spec_sender() == old(self).spec_sender(),
    {
        self.header.extend(header);
    }
}

impl<M> From<M> for MessageEnvelope<M> where
    M: Message + Send + 'static,
    M::Result: Send,
{
    /// Wraps a message into an envelope; the sender is set to `None` and the
    /// headers start empty. Verified callers use `wrap`, whose contract says
    /// the same.
    fn from(msg: M) -> Self {
        Self::wrap(msg)
    }
}

impl<M> vstd::std_specs::convert::FromSpecImpl<M> for MessageEnvelope<M> where
    M: Message + Send + 'static,
    M::Result: Send,
{
    open spec fn obeys_from_spec() -> bool {
        false
    }

    open spec fn from_spec(msg: M) -> Self {
        arbitrary()
    }
}

} // verus!
