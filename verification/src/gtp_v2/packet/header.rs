//! GTPv2 header: the flags octet (version, P, T, MP), message type and
//! length, the optional TEID the T flag announces, the 24-bit sequence
//! number, and the message-priority/spare octet.

use vstd::prelude::*;

use crate::bytes::{be16, be24, be32, val16, val24, val32, write_u16_be, write_u24_be, write_u32_be, read_u16_be, read_u24_be, read_u32_be};
use crate::errors::GtpError;

use super::messages::MessageType;

verus! {

/// The inputs `parse` accepts: version 2, the piggyback flag clear, a known
/// message type, and a buffer covering what the T flag announces.
pub open spec fn parse_ok(b: Seq<u8>) -> bool {
    &&& b.len() >= 8
    &&& b[0] / 32 == 2
    &&& (b[0] / 16) % 2 == 0
    &&& MessageType::spec_from_u8(b[1]) is Some
    &&& ((b[0] / 8) % 2 == 1 ==> b.len() >= 12)
}

/// The octets `parse` consumes: eight, or twelve when the T flag announces a
/// TEID.
pub open spec fn consumed(b: Seq<u8>) -> int {
    if (b[0] / 8) % 2 == 1 {
        12int
    } else {
        8int
    }
}

/// GTPv2 header.
pub struct Header {
    /// Always 2.
    pub version: u8,
    pub message_type: MessageType,
    /// Piggyback flag; a set flag is not supported and rejected at parse.
    pub p: u8,
    /// TEID-present flag.
    pub t: u8,
    /// Message-priority-present flag.
    pub mp: u8,
    /// Length of the message that follows the header; the header's own
    /// octets past the first four are added on top of it by `length`.
    pub payload_length: u16,
    /// At most 24 bits.
    pub sequence_number: u32,
    pub teid: u32,
    /// At most 0xF.
    pub message_priority: u8,
}

impl Header {
    /// The flags and the optional fields are consistent.
    pub open spec fn wf(&self) -> bool {
        &&& self.version == 2
        &&& self.p == 0
        &&& self.t <= 1
        &&& self.mp <= 1
        &&& self.sequence_number <= 0xFFFFFF
        &&& self.message_priority <= 0xF
    }

    /// The value of the wire length field: everything after the first four
    /// octets.  Four octets for the TEID if T is set, three for the sequence
    /// number, one for the priority/spare octet, and the message.
    pub open spec fn length_field(&self) -> int {
        self.payload_length + (if self.t == 1 {
            4int
        } else {
            0int
        }) + 3 + 1
    }

    /// The first octet: version and the P, T and MP flags.
    pub open spec fn flags_value(&self) -> u8 {
        (self.version * 32 + self.p * 16 + self.t * 8 + self.mp * 4) as u8
    }

    /// The on-wire image of the header alone (the message is not included).
    pub open spec fn encoding(&self) -> Seq<u8> {
        seq![self.flags_value(), self.message_type.spec_value()] + be16(self.length_field() as u16)
            + (if self.t == 1 {
            be32(self.teid)
        } else {
            Seq::empty()
        }) + be24(self.sequence_number) + seq![
            if self.mp == 1 {
                ((self.message_priority % 16) * 16) as u8
            } else {
                0u8
            },
        ]
    }

    pub fn new(message_type: MessageType) -> (r: Self)
        ensures
            r == (Header {
                version: 2u8,
                message_type,
                p: 0u8,
                t: 0u8,
                mp: 0u8,
                payload_length: 0u16,
                sequence_number: 0u32,
                teid: 0u32,
                message_priority: 0u8,
            }),
            r.wf(),
    {
        Header {
            version: 2,
            message_type,
            payload_length: 0,
            p: 0,
            t: 0,
            mp: 0,
            teid: 0,
            sequence_number: 0,
            message_priority: 0,
        }
    }

    pub fn message_type(&self) -> (r: MessageType)
        ensures
            r == self.message_type,
    {
        self.message_type
    }

    /// The wire length field: the payload length, plus four octets when T is
    /// set, plus three for the sequence number and one for the spare octet.
    pub fn length(&self) -> (r: u16)
        requires
            self.length_field() <= 0xFFFF,
        ensures
            r == self.length_field(),
    {
        let mut length: u16 = self.payload_length;
        length = length + 3;
        if self.t == 1 {
            length = length + 4;
        }
        length = length + 1;
        length
    }

    pub fn enable_teid(&mut self)
        ensures
            *final(self) == (Header { t: 1u8, ..*old(self) }),
    {
        self.t = 1;
    }

    pub fn set_teid(&mut self, teid: u32)
        ensures
            *final(self) == (Header { teid, ..*old(self) }),
    {
        self.teid = teid;
    }

    pub fn teid(&self) -> (r: u32)
        ensures
            r == self.teid,
    {
        self.teid
    }

    /// Accepts exactly the values that fit 24 bits.
    pub fn set_sequence_number(&mut self, sequence_number: u32) -> (r: Result<u32, GtpError>)
        ensures
            sequence_number > 0xFFFFFF ==> r == Err::<u32, GtpError>(
                GtpError::SequenceNumberTooLarge,
            ) && *final(self) == *old(self),
            sequence_number <= 0xFFFFFF ==> r == Ok::<u32, GtpError>(sequence_number)
                && *final(self) == (Header { sequence_number, ..*old(self) }),
    {
        if sequence_number > 0xFFFFFF {
            return Err(GtpError::SequenceNumberTooLarge);
        }
        self.sequence_number = sequence_number;
        Ok(sequence_number)
    }

    pub fn sequence_number(&self) -> (r: u32)
        ensures
            r == self.sequence_number,
    {
        self.sequence_number
    }

    pub fn enable_message_priority(&mut self)
        ensures
            *final(self) == (Header { mp: 1u8, ..*old(self) }),
    {
        self.mp = 1;
    }

    pub fn disable_message_priority(&mut self)
        ensures
            *final(self) == (Header { mp: 0u8, ..*old(self) }),
    {
        self.mp = 0;
    }

    /// Accepts exactly the values that fit four bits.
    pub fn set_message_priority(&mut self, message_priority: u8) -> (r: Result<u8, GtpError>)
        ensures
            message_priority > 0xF ==> r == Err::<u8, GtpError>(GtpError::MessagePriorityTooLarge)
                && *final(self) == *old(self),
            message_priority <= 0xF ==> r == Ok::<u8, GtpError>(message_priority) && *final(self)
                == (Header { message_priority, ..*old(self) }),
    {
        if message_priority > 0xF {
            return Err(GtpError::MessagePriorityTooLarge);
        }
        self.message_priority = message_priority;
        Ok(message_priority)
    }

    pub fn message_priority(&self) -> (r: u8)
        ensures
            r == self.message_priority,
    {
        self.message_priority
    }

    pub fn set_payload_length(&mut self, payload_length: u16)
        ensures
            *final(self) == (Header { payload_length, ..*old(self) }),
    {
        self.payload_length = payload_length;
    }

    /// Writes the header: the flags octet, the message type, the length
    /// field, the TEID when T is set, the sequence number, and the
    /// priority/spare octet.
    pub fn generate(&self, buffer: &mut Vec<u8>) -> (n: usize)
        requires
            self.wf(),
            self.length_field() <= 0xFFFF,
        ensures
            final(buffer)@ == old(buffer)@ + self.encoding(),
            n == self.encoding().len(),
    {
        let start = buffer.len();
        buffer.push(self.version * 32 + self.p * 16 + self.t * 8 + self.mp * 4);
        buffer.push(self.message_type.value());
        write_u16_be(buffer, self.length());
        if self.t == 1 {
            write_u32_be(buffer, self.teid);
        }
        write_u24_be(buffer, self.sequence_number);
        if self.mp == 1 {
            buffer.push((self.message_priority % 16) * 16);
        } else {
            buffer.push(0);
        }
        assert(buffer@ =~= old(buffer)@ + self.encoding());
        buffer.len() - start
    }

    /// Reads a header.  Version must be 2; a set piggyback flag, an unknown
    /// message type, or a buffer too short for what the flags announce is
    /// fatal.
    pub fn parse(buffer: &[u8]) -> (r: Option<(Self, usize)>)
        ensures
            r is Some <==> parse_ok(buffer@),
            buffer@.len() < 8 ==> r is None,
            r matches Some((h, n)) ==> {
                &&& h.wf()
                &&& n == consumed(buffer@)
                &&& 8 <= n <= buffer@.len()
                &&& buffer@[0] / 32 == 2 && (buffer@[0] / 16) % 2 == 0
                &&& h.t == (buffer@[0] / 8) % 2 && h.mp == (buffer@[0] / 4) % 2
                &&& Some(h.message_type) == MessageType::spec_from_u8(buffer@[1])
                &&& (h.t == 1 ==> n == 12 && h.teid == val32(buffer@, 4) && h.sequence_number
                    == val24(buffer@, 8) && (h.mp == 1 ==> h.message_priority == buffer@[11] / 16))
                &&& (h.t == 0 ==> n == 8 && h.teid == 0 && h.sequence_number == val24(buffer@, 4)
                    && (h.mp == 1 ==> h.message_priority == buffer@[7] / 16))
                &&& h.payload_length == 0
            },
    {
        if buffer.len() < 8 {
            return None;
        }
        let flags = buffer[0];
        let version = flags / 32;
        let p = (flags / 16) % 2;
        let t = (flags / 8) % 2;
        let mp = (flags / 4) % 2;
        if version != 2 {
            return None;
        }
        if p == 1 {
            return None;
        }
        let message_type = match MessageType::try_from_u8(buffer[1]) {
            Some(m) => m,
            None => { return None },
        };
        let mut h = Self::new(message_type);
        let _length = read_u16_be(buffer, 2);
        let mut pos: usize = 4;
        if t == 1 {
            if buffer.len() < 12 {
                return None;
            }
            h.set_teid(read_u32_be(buffer, pos));
            h.enable_teid();
            pos = pos + 4;
        }
        let sequence_number = read_u24_be(buffer, pos);
        let _ = h.set_sequence_number(sequence_number);
        pos = pos + 3;
        if mp == 1 {
            let _ = h.set_message_priority(buffer[pos] / 16);
            h.enable_message_priority();
        }
        pos = pos + 1;
        Some((h, pos))
    }
}

} // verus!
