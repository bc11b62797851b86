//! GTPv1 messages: the discriminated union of the message bodies a packet can
//! carry, and the wire values of the message-type octet.

use vstd::prelude::*;

pub mod echo_request;
pub mod echo_response;
pub mod create_pdp_context_request;
pub mod information_elements;
pub mod g_pdu;

use information_elements::InformationElement;

verus! {

/// The wire values of the GTPv1 message-type octet this library supports.
#[derive(Copy, Clone, PartialEq, Eq, Structural, Debug)]
pub enum MessageType {
    EchoRequest,
    EchoResponse,
    CreatePDPContextRequest,
    GPDU,
}

impl MessageType {
    /// The message-type octet this variant stands for.
    pub open spec fn spec_value(self) -> u8 {
        match self {
            MessageType::EchoRequest => 1,
            MessageType::EchoResponse => 2,
            MessageType::CreatePDPContextRequest => 16,
            MessageType::GPDU => 255,
        }
    }

    /// The variant a message-type octet stands for, if any.
    pub open spec fn spec_from_u8(v: u8) -> Option<MessageType> {
        if v == 1 {
            Some(MessageType::EchoRequest)
        } else if v == 2 {
            Some(MessageType::EchoResponse)
        } else if v == 16 {
            Some(MessageType::CreatePDPContextRequest)
        } else if v == 255 {
            Some(MessageType::GPDU)
        } else {
            None
        }
    }

    pub fn value(&self) -> (r: u8)
        ensures
            r == self.spec_value(),
    {
        match self {
            MessageType::EchoRequest => 1,
            MessageType::EchoResponse => 2,
            MessageType::CreatePDPContextRequest => 16,
            MessageType::GPDU => 255,
        }
    }

    pub fn try_from_u8(v: u8) -> (r: Option<MessageType>)
        ensures
            r == Self::spec_from_u8(v),
    {
        if v == 1 {
            Some(MessageType::EchoRequest)
        } else if v == 2 {
            Some(MessageType::EchoResponse)
        } else if v == 16 {
            Some(MessageType::CreatePDPContextRequest)
        } else if v == 255 {
            Some(MessageType::GPDU)
        } else {
            None
        }
    }
}

/// The inputs `Message::parse` accepts for a body of the given type.
pub open spec fn message_parse_ok(t: MessageType, b: Seq<u8>) -> bool {
    match t {
        MessageType::EchoRequest => true,
        MessageType::EchoResponse => true,
        MessageType::CreatePDPContextRequest => create_pdp_context_request::parse_ok(b),
        MessageType::GPDU => b.len() <= 0xFFFF,
    }
}

/// What every GTPv1 message body offers: its wire discriminator, its byte
/// image, and a list of information elements it may carry.
pub trait MessageTraits: Sized {
    /// The full on-wire image of the body (the header is not included).
    spec fn encoding(&self) -> Seq<u8>;

    /// The information elements the message owns, in generate order.  The
    /// fixed-shape messages own none and discard what is pushed at them.
    spec fn ies(&self) -> Seq<InformationElement>;

    /// The message's type.
    spec fn spec_type(&self) -> MessageType;

    /// The body's fields are inside the bounds its encoding assumes.
    spec fn wf(&self) -> bool;

    fn message_type(&self) -> (r: MessageType)
        ensures
            r == self.spec_type(),
    ;

    fn length(&self) -> (r: u16)
        requires
            self.wf(),
        ensures
            r == self.encoding().len(),
    ;

    fn generate(&self, buffer: &mut Vec<u8>) -> (n: usize)
        requires
            self.wf(),
        ensures
            final(buffer)@ == old(buffer)@ + self.encoding(),
            n == self.encoding().len(),
    ;

    fn push_ie(&mut self, ie: InformationElement)
        ensures
            old(self).spec_type() is CreatePDPContextRequest ==> final(self).ies() == old(
                self,
            ).ies().push(ie),
            !(old(self).spec_type() is CreatePDPContextRequest) ==> *final(self) == *old(self),
            final(self).spec_type() == old(self).spec_type(),
    ;

    fn pop_ie(&mut self) -> (r: Option<InformationElement>)
        ensures
            old(self).spec_type() is CreatePDPContextRequest && old(self).ies().len() > 0 ==> r
                == Some(old(self).ies().last()) && final(self).ies() == old(
                self,
            ).ies().drop_last(),
            old(self).spec_type() is CreatePDPContextRequest && old(self).ies().len() == 0 ==> r
                is None && final(self).ies() == old(self).ies(),
            !(old(self).spec_type() is CreatePDPContextRequest) ==> r is None && *final(self)
                == *old(self),
            final(self).spec_type() == old(self).spec_type(),
    ;
}

/// Any of the supported GTPv1 message bodies.
pub enum Message {
    EchoRequest(echo_request::Message),
    EchoResponse(echo_response::Message),
    CreatePDPContextRequest(create_pdp_context_request::Message),
    GPDU(g_pdu::Message),
}

impl Message {
    /// An empty body of the given type.
    pub fn new(message_type: MessageType) -> (r: Self)
        ensures
            r.spec_type() == message_type,
            r.wf(),
            r.encoding().len() == 0,
    {
        match message_type {
            MessageType::EchoRequest => Message::EchoRequest(echo_request::Message::new()),
            MessageType::EchoResponse => Message::EchoResponse(echo_response::Message::new()),
            MessageType::CreatePDPContextRequest => Message::CreatePDPContextRequest(
                create_pdp_context_request::Message::new(),
            ),
            MessageType::GPDU => Message::GPDU(g_pdu::Message::new()),
        }
    }

    /// Reads the body of a message of the given type from the whole buffer.
    pub fn parse(message_type: MessageType, buffer: &[u8]) -> (r: Option<(Self, usize)>)
        ensures
            r is Some <==> message_parse_ok(message_type, buffer@),
            r matches Some((m, n)) ==> m.spec_type() == message_type && m.wf() && n
                <= buffer@.len(),
            message_type is EchoRequest || message_type is EchoResponse ==> (r matches Some((m, n))
                && n == 0),
            message_type is GPDU ==> (r matches Some((m, n)) ==> n == buffer@.len() && m.encoding()
                == buffer@ && m.wf()),
            message_type is CreatePDPContextRequest ==> (r matches Some((m, n)) ==> n
                == buffer@.len()),
    {
        match message_type {
            MessageType::EchoRequest => {
                match echo_request::Message::parse(buffer) {
                    Some((m, pos)) => Some((Message::EchoRequest(m), pos)),
                    None => None,
                }
            },
            MessageType::EchoResponse => {
                match echo_response::Message::parse(buffer) {
                    Some((m, pos)) => Some((Message::EchoResponse(m), pos)),
                    None => None,
                }
            },
            MessageType::CreatePDPContextRequest => {
                match create_pdp_context_request::Message::parse(buffer) {
                    Some((m, pos)) => Some((Message::CreatePDPContextRequest(m), pos)),
                    None => None,
                }
            },
            MessageType::GPDU => {
                match g_pdu::Message::parse(buffer) {
                    Some((m, pos)) => Some((Message::GPDU(m), pos)),
                    None => None,
                }
            },
        }
    }
}

impl MessageTraits for Message {
    open spec fn encoding(&self) -> Seq<u8> {
        match self {
            Message::EchoRequest(m) => m.encoding(),
            Message::EchoResponse(m) => m.encoding(),
            Message::CreatePDPContextRequest(m) => m.encoding(),
            Message::GPDU(m) => m.encoding(),
        }
    }

    open spec fn spec_type(&self) -> MessageType {
        match self {
            Message::EchoRequest(m) => m.spec_type(),
            Message::EchoResponse(m) => m.spec_type(),
            Message::CreatePDPContextRequest(m) => m.spec_type(),
            Message::GPDU(m) => m.spec_type(),
        }
    }

    open spec fn ies(&self) -> Seq<InformationElement> {
        match self {
            Message::EchoRequest(m) => m.ies(),
            Message::EchoResponse(m) => m.ies(),
            Message::CreatePDPContextRequest(m) => m.ies(),
            Message::GPDU(m) => m.ies(),
        }
    }

    open spec fn wf(&self) -> bool {
        match self {
            Message::EchoRequest(m) => m.wf(),
            Message::EchoResponse(m) => m.wf(),
            Message::CreatePDPContextRequest(m) => m.wf(),
            Message::GPDU(m) => m.wf(),
        }
    }

    fn message_type(&self) -> (r: MessageType) {
        match self {
            Message::EchoRequest(m) => m.message_type(),
            Message::EchoResponse(m) => m.message_type(),
            Message::CreatePDPContextRequest(m) => m.message_type(),
            Message::GPDU(m) => m.message_type(),
        }
    }

    fn length(&self) -> (r: u16) {
        match self {
            Message::EchoRequest(m) => m.length(),
            Message::EchoResponse(m) => m.length(),
            Message::CreatePDPContextRequest(m) => m.length(),
            Message::GPDU(m) => m.length(),
        }
    }

    fn generate(&self, buffer: &mut Vec<u8>) -> (n: usize) {
        match self {
            Message::EchoRequest(m) => m.generate(buffer),
            Message::EchoResponse(m) => m.generate(buffer),
            Message::CreatePDPContextRequest(m) => m.generate(buffer),
            Message::GPDU(m) => m.generate(buffer),
        }
    }

    fn push_ie(&mut self, ie: InformationElement) {
        match self {
            Message::EchoRequest(m) => m.push_ie(ie),
            Message::EchoResponse(m) => m.push_ie(ie),
            Message::CreatePDPContextRequest(m) => m.push_ie(ie),
            Message::GPDU(m) => m.push_ie(ie),
        }
    }

    fn pop_ie(&mut self) -> (r: Option<InformationElement>) {
        match self {
            Message::EchoRequest(m) => m.pop_ie(),
            Message::EchoResponse(m) => m.pop_ie(),
            Message::CreatePDPContextRequest(m) => m.pop_ie(),
            Message::GPDU(m) => m.pop_ie(),
        }
    }
}

} // verus!
