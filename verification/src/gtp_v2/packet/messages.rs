//! GTPv2 messages: the discriminated union of the message bodies a packet
//! can carry, and the wire values of the message-type octet.

use vstd::prelude::*;

pub mod echo_request;
pub mod echo_response;
pub mod create_session_request;
pub mod create_session_response;
pub mod information_elements;

verus! {

/// The wire values of the GTPv2 message-type octet this library supports.
#[derive(Copy, Clone, PartialEq, Eq, Structural, Debug)]
pub enum MessageType {
    EchoRequest,
    EchoResponse,
    CreateSessionRequest,
    CreateSessionResponse,
}

impl MessageType {
    /// The message-type octet this variant stands for.
    pub open spec fn spec_value(self) -> u8 {
        match self {
            MessageType::EchoRequest => 1,
            MessageType::EchoResponse => 2,
            MessageType::CreateSessionRequest => 32,
            MessageType::CreateSessionResponse => 33,
        }
    }

    /// The variant a message-type octet stands for, if any.
    pub open spec fn spec_from_u8(v: u8) -> Option<MessageType> {
        if v == 1 {
            Some(MessageType::EchoRequest)
        } else if v == 2 {
            Some(MessageType::EchoResponse)
        } else if v == 32 {
            Some(MessageType::CreateSessionRequest)
        } else if v == 33 {
            Some(MessageType::CreateSessionResponse)
        } else {
            None
        }
    }

    pub fn value(&self) -> (r: u8)
        ensures
            r == self.spec_value(),
    {
        match self {
            MessageType::EchoRequest => 1,
            MessageType::EchoResponse => 2,
            MessageType::CreateSessionRequest => 32,
            MessageType::CreateSessionResponse => 33,
        }
    }

    pub fn try_from_u8(v: u8) -> (r: Option<MessageType>)
        ensures
            r == Self::spec_from_u8(v),
    {
        if v == 1 {
            Some(MessageType::EchoRequest)
        } else if v == 2 {
            Some(MessageType::EchoResponse)
        } else if v == 32 {
            Some(MessageType::CreateSessionRequest)
        } else if v == 33 {
            Some(MessageType::CreateSessionResponse)
        } else {
            None
        }
    }
}

/// The inputs `Message::parse` accepts for a body of the given type.
pub open spec fn message_parse_ok(t: MessageType, b: Seq<u8>) -> bool {
    match t {
        MessageType::EchoRequest => echo_request::parse_ok(b),
        MessageType::EchoResponse => echo_response::parse_ok(b),
        MessageType::CreateSessionRequest => create_session_request::parse_ok(b),
        MessageType::CreateSessionResponse => create_session_response::parse_ok(b),
    }
}

/// What every GTPv2 message body offers: its wire discriminator and its byte
/// image.
pub trait MessageTraits: Sized {
    /// The full on-wire image of the body (the header is not included).
    spec fn encoding(&self) -> Seq<u8>;

    /// The message's type.
    spec fn spec_type(&self) -> MessageType;

    /// The body's fields are inside the bounds its encoding assumes.
    spec fn wf(&self) -> bool;

    fn message_type(&self) -> (r: MessageType)
        ensures
            r == self.spec_type(),
    ;

    fn length(&self) -> (r: u16)
        requires
            self.wf(),
        ensures
            r == self.encoding().len(),
    ;

    fn generate(&self, buffer: &mut Vec<u8>) -> (n: usize)
        requires
            self.wf(),
        ensures
            final(buffer)@ == old(buffer)@ + self.encoding(),
            n == self.encoding().len(),
    ;
}

/// Any of the supported GTPv2 message bodies.
pub enum Message {
    EchoRequest(echo_request::Message),
    EchoResponse(echo_response::Message),
    CreateSessionRequest(create_session_request::Message),
    CreateSessionResponse(create_session_response::Message),
}

impl Message {
    /// Reads the body of a message of the given type from the whole buffer.
    pub fn parse(message_type: MessageType, buffer: &[u8]) -> (r: Option<(Self, usize)>)
        ensures
            r is Some <==> message_parse_ok(message_type, buffer@),
            r matches Some((m, n)) ==> m.spec_type() == message_type && m.wf() && n
                == buffer@.len(),
    {
        match message_type {
            MessageType::EchoRequest => {
                match echo_request::Message::parse(buffer) {
                    Some((m, pos)) => Some((Message::EchoRequest(m), pos)),
                    None => None,
                }
            },
            MessageType::EchoResponse => {
                match echo_response::Message::parse(buffer) {
                    Some((m, pos)) => Some((Message::EchoResponse(m), pos)),
                    None => None,
                }
            },
            MessageType::CreateSessionRequest => {
                match create_session_request::Message::parse(buffer) {
                    Some((m, pos)) => Some((Message::CreateSessionRequest(m), pos)),
                    None => None,
                }
            },
            MessageType::CreateSessionResponse => {
                match create_session_response::Message::parse(buffer) {
                    Some((m, pos)) => Some((Message::CreateSessionResponse(m), pos)),
                    None => None,
                }
            },
        }
    }
}

impl MessageTraits for Message {
    open spec fn encoding(&self) -> Seq<u8> {
        match self {
            Message::EchoRequest(m) => m.encoding(),
            Message::EchoResponse(m) => m.encoding(),
            Message::CreateSessionRequest(m) => m.encoding(),
            Message::CreateSessionResponse(m) => m.encoding(),
        }
    }

    open spec fn spec_type(&self) -> MessageType {
        match self {
            Message::EchoRequest(m) => m.spec_type(),
            Message::EchoResponse(m) => m.spec_type(),
            Message::CreateSessionRequest(m) => m.spec_type(),
            Message::CreateSessionResponse(m) => m.spec_type(),
        }
    }

    open spec fn wf(&self) -> bool {
        match self {
            Message::EchoRequest(m) => m.wf(),
            Message::EchoResponse(m) => m.wf(),
            Message::CreateSessionRequest(m) => m.wf(),
            Message::CreateSessionResponse(m) => m.wf(),
        }
    }

    fn message_type(&self) -> (r: MessageType) {
        match self {
            Message::EchoRequest(m) => m.message_type(),
            Message::EchoResponse(m) => m.message_type(),
            Message::CreateSessionRequest(m) => m.message_type(),
            Message::CreateSessionResponse(m) => m.message_type(),
        }
    }

    fn length(&self) -> (r: u16) {
        match self {
            Message::EchoRequest(m) => m.length(),
            Message::EchoResponse(m) => m.length(),
            Message::CreateSessionRequest(m) => m.length(),
            Message::CreateSessionResponse(m) => m.length(),
        }
    }

    fn generate(&self, buffer: &mut Vec<u8>) -> (n: usize) {
        match self {
            Message::EchoRequest(m) => m.generate(buffer),
            Message::EchoResponse(m) => m.generate(buffer),
            Message::CreateSessionRequest(m) => m.generate(buffer),
            Message::CreateSessionResponse(m) => m.generate(buffer),
        }
    }
}

} // verus!
