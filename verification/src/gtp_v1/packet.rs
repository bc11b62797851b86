//! A GTPv1 packet: a header followed by one message.  The header's payload
//! length is always recomputed from the message at generate time, never
//! trusted from prior state.

use vstd::prelude::*;

pub mod header;
pub mod messages;

use crate::bytes::val32;

use header::Header;
use messages::{Message, MessageTraits};

verus! {

/// The inputs `parse` accepts: a header `Header::parse` accepts, whose
/// announced message type's decoder accepts the rest of the buffer.
pub open spec fn parse_ok(b: Seq<u8>) -> bool {
    &&& header::parse_ok(b)
    &&& match messages::MessageType::spec_from_u8(b[1]) {
        Some(t) => messages::message_parse_ok(t, b.skip(header::consumed(b))),
        None => false,
    }
}

/// A GTPv1 packet.
pub struct Packet {
    pub header: Header,
    pub message: Message,
}

impl Packet {
    /// The header as it is stamped at generate time: its payload length set
    /// to the message's length.
    pub open spec fn stamped_header(&self) -> Header {
        Header { payload_length: self.message.encoding().len() as u16, ..self.header }
    }

    /// The full on-wire image: the stamped header, then the message.
    pub open spec fn encoding(&self) -> Seq<u8> {
        self.stamped_header().encoding() + self.message.encoding()
    }

    /// The packet can be generated: header and message are sound and the
    /// stamped length field fits its sixteen bits.
    pub open spec fn wf(&self) -> bool {
        &&& self.header.wf()
        &&& self.message.wf()
        &&& self.stamped_header().length_field() <= 0xFFFF
    }

    /// A packet around `message`, under a fresh header of the same type.
    pub fn new(message: Message) -> (r: Self)
        ensures
            r.message == message,
            r.header == (Header {
                version: 1u8,
                message_type: message.spec_type(),
                pt: 1u8,
                e: 0u8,
                s: 0u8,
                pn: 0u8,
                teid: 0u32,
                payload_length: 0u16,
                sequence_number: 0u16,
                n_pdu_number: 0u8,
                extension_headers: r.header.extension_headers,
            }),
            r.header.extension_headers@.len() == 0,
            r.header.wf(),
    {
        let header = Header::new(message.message_type());
        Packet { header, message }
    }

    /// Stamps the header's payload length from the message, then writes the
    /// header and the message.
    pub fn generate(&mut self, buffer: &mut Vec<u8>) -> (n: usize)
        requires
            old(self).wf(),
        ensures
            final(buffer)@ == old(buffer)@ + old(self).encoding(),
            n == old(self).encoding().len(),
            *final(self) == (Packet {
                header: old(self).stamped_header(),
                message: final(self).message,
            }),
            final(self).message == old(self).message,
    {
        let payload_length = self.message.length();
        self.header.set_payload_length(payload_length);
        let pos = self.header.generate(buffer);
        let pos2 = self.message.generate(buffer);
        proof {
            assert(buffer@ =~= old(buffer)@ + old(self).encoding());
        }
        pos + pos2
    }

    /// Reads a header and then the message its type octet announces from the
    /// rest of the buffer.  The recovered header carries the message's length
    /// as its payload length.
    pub fn parse(buffer: &[u8]) -> (r: Option<(Self, usize)>)
        ensures
            r is Some <==> parse_ok(buffer@),
            buffer@.len() < 8 ==> r is None,
            r matches Some((p, n)) ==> {
                &&& p.header.wf()
                &&& 8 <= n <= buffer@.len()
                &&& Some(p.header.message_type) == messages::MessageType::spec_from_u8(buffer@[1])
                &&& p.message.spec_type() == p.header.message_type
                &&& p.header.teid == val32(buffer@, 4)
                &&& p.header.payload_length == p.message.encoding().len()
                &&& ((p.message is EchoRequest || p.message is EchoResponse) ==> n
                    == header::consumed(buffer@))
                &&& ((p.message is GPDU || p.message is CreatePDPContextRequest) ==> n
                    == buffer@.len())
                &&& (p.message matches Message::GPDU(m) ==> m.t_pdu@ == buffer@.skip(
                    header::consumed(buffer@),
                ))
            },
    {
        let buffer_len = buffer.len();
        match Header::parse(buffer) {
            Some((mut h, _length, h_pos)) => {
                proof {
                    assert(buffer@.subrange(h_pos as int, buffer_len as int) =~= buffer@.skip(
                        h_pos as int,
                    ));
                }
                match Message::parse(h.message_type(), &buffer[h_pos..buffer_len]) {
                    Some((m, m_pos)) => {
                        let payload_length = m.length();
                        h.set_payload_length(payload_length);
                        Some((Packet { header: h, message: m }, h_pos + m_pos))
                    },
                    None => None,
                }
            },
            None => None,
        }
    }
}

} // verus!
