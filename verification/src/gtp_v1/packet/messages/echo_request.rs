//! Echo Request message (GTPv1).  It carries no information elements: its whole
//! content is the packet header.

use vstd::prelude::*;

use super::{MessageTraits, MessageType};
use super::information_elements::InformationElement;

verus! {

/// Echo Request message body: empty.
pub struct Message {
}

impl Message {
    pub fn new() -> Message {
        Message {  }
    }

    /// An empty body: nothing is read and nothing can fail.
    pub fn parse(_buffer: &[u8]) -> (r: Option<(Self, usize)>)
        ensures
            r matches Some((m, n)) && n == 0,
    {
        Some((Message {  }, 0))
    }
}

impl MessageTraits for Message {
    open spec fn encoding(&self) -> Seq<u8> {
        Seq::empty()
    }

    open spec fn ies(&self) -> Seq<InformationElement> {
        Seq::empty()
    }

    open spec fn spec_type(&self) -> MessageType {
        MessageType::EchoRequest
    }

    open spec fn wf(&self) -> bool {
        true
    }

    fn message_type(&self) -> (r: MessageType) {
        MessageType::EchoRequest
    }

    fn length(&self) -> (r: u16) {
        0
    }

    fn generate(&self, buffer: &mut Vec<u8>) -> (n: usize) {
        assert(buffer@ =~= old(buffer)@ + self.encoding());
        0
    }

    fn push_ie(&mut self, _ie: InformationElement) {
    }

    fn pop_ie(&mut self) -> (r: Option<InformationElement>) {
        None
    }
}

} // verus!
