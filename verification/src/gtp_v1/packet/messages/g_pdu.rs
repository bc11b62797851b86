//! G-PDU message (GTPv1): the user-plane message whose body is the
//! encapsulated IP packet (the T-PDU), carried verbatim.

use vstd::prelude::*;

use vstd::slice::slice_to_vec;

use crate::bytes::write_bytes;
use crate::errors::GtpError;

use super::{MessageTraits, MessageType};
use super::information_elements::InformationElement;

verus! {

/// G-PDU message body: the encapsulated IP packet.
pub struct Message {
    /// At most 0xFFFF octets, so that the packet's length field can count it.
    pub t_pdu: Vec<u8>,
}

impl Message {
    pub fn new() -> (r: Self)
        ensures
            r.t_pdu@.len() == 0,
    {
        Message { t_pdu: Vec::new() }
    }

    /// Stores a copy of `packet` as the T-PDU.  It fails exactly when the
    /// packet cannot be counted by the sixteen-bit length field.
    pub fn attach_packet(&mut self, packet: &[u8]) -> (r: Result<usize, GtpError>)
        ensures
            packet@.len() > 0xFFFF ==> r == Err::<usize, GtpError>(GtpError::PacketTooLarge)
                && *final(self) == *old(self),
            packet@.len() <= 0xFFFF ==> r == Ok::<usize, GtpError>(packet@.len() as usize)
                && final(self).t_pdu@ == packet@,
    {
        if packet.len() > 0xFFFF {
            return Err(GtpError::PacketTooLarge);
        }
        self.t_pdu = slice_to_vec(packet);
        Ok(packet.len())
    }

    /// Takes the whole buffer as the T-PDU.  It fails exactly when the buffer
    /// is longer than the length field could have declared.
    pub fn parse(buffer: &[u8]) -> (r: Option<(Self, usize)>)
        ensures
            r is Some <==> buffer@.len() <= 0xFFFF,
            r matches Some((m, n)) ==> n == buffer@.len() && m.t_pdu@ == buffer@ && m.wf(),
    {
        if buffer.len() > 0xFFFF {
            return None;
        }
        Some((Message { t_pdu: slice_to_vec(buffer) }, buffer.len()))
    }
}

impl MessageTraits for Message {
    open spec fn encoding(&self) -> Seq<u8> {
        self.t_pdu@
    }

    open spec fn ies(&self) -> Seq<InformationElement> {
        Seq::empty()
    }

    open spec fn spec_type(&self) -> MessageType {
        MessageType::GPDU
    }

    open spec fn wf(&self) -> bool {
        self.t_pdu@.len() <= 0xFFFF
    }

    fn message_type(&self) -> (r: MessageType) {
        MessageType::GPDU
    }

    fn length(&self) -> (r: u16) {
        self.t_pdu.len() as u16
    }

    fn generate(&self, buffer: &mut Vec<u8>) -> (n: usize) {
        write_bytes(buffer, self.t_pdu.as_slice());
        self.t_pdu.len()
    }

    fn push_ie(&mut self, _ie: InformationElement) {
    }

    fn pop_ie(&mut self) -> (r: Option<InformationElement>) {
        None
    }
}

} // verus!
