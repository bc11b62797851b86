//! UDP port extension header.
//!
//! Four octets on the wire: length (in four-octet units), the number
//! big-endian, and the type of the successor record.

use vstd::prelude::*;

use crate::bytes::{be16, val16, write_u16_be, read_u16_be};

use super::{ExtensionHeaderTraits, ExtensionHeaderType};

verus! {

/// UDP port extension header.
pub struct ExtensionHeader {
    pub udp_port_number: u16,
    pub next_extension_header_type: ExtensionHeaderType,
}

impl ExtensionHeader {
    pub fn new() -> (r: ExtensionHeader)
        ensures
            r.udp_port_number == 0,
            r.next_extension_header_type == ExtensionHeaderType::NoMore,
    {
        ExtensionHeader { udp_port_number: 0, next_extension_header_type: ExtensionHeaderType::NoMore }
    }

    /// Reads one record.  It fails exactly on a short buffer or an unknown
    /// successor type octet.
    pub fn parse(buffer: &[u8]) -> (r: Option<(Self, usize)>)
        ensures
            r is Some <==> buffer@.len() >= 4 && ExtensionHeaderType::spec_from_u8(buffer@[3])
                is Some,
            r matches Some((eh, n)) ==> {
                &&& n == 4
                &&& eh.udp_port_number == val16(buffer@, 1)
                &&& Some(eh.next_extension_header_type) == ExtensionHeaderType::spec_from_u8(
                    buffer@[3],
                )
            },
    {
        if buffer.len() < 4 {
            return None;
        }
        let value = read_u16_be(buffer, 1);
        match ExtensionHeaderType::try_from_u8(buffer[3]) {
            Some(next) => Some(
                (ExtensionHeader { udp_port_number: value, next_extension_header_type: next }, 4),
            ),
            None => None,
        }
    }

    pub fn set_udp_port_number(&mut self, value: u16)
        ensures
            final(self).udp_port_number == value,
            final(self).next_extension_header_type == old(self).next_extension_header_type,
    {
        self.udp_port_number = value;
    }

    pub fn udp_port_number(&self) -> (r: u16)
        ensures
            r == self.udp_port_number,
    {
        self.udp_port_number
    }
}

impl ExtensionHeaderTraits for ExtensionHeader {
    open spec fn encoding(&self) -> Seq<u8> {
        seq![0x01u8] + be16(self.udp_port_number) + seq![self.next_extension_header_type.spec_value()]
    }

    open spec fn spec_type(&self) -> ExtensionHeaderType {
        ExtensionHeaderType::UDPPort
    }

    open spec fn spec_next(&self) -> ExtensionHeaderType {
        self.next_extension_header_type
    }

    open spec fn with_next(&self, next: ExtensionHeaderType) -> Self {
        ExtensionHeader { udp_port_number: self.udp_port_number, next_extension_header_type: next }
    }

    fn extension_header_type(&self) -> (r: ExtensionHeaderType) {
        ExtensionHeaderType::UDPPort
    }

    fn set_next_extension_header_type(&mut self, next_extension_header_type: ExtensionHeaderType) {
        self.next_extension_header_type = next_extension_header_type;
    }

    fn next_extension_header_type(&self) -> (r: ExtensionHeaderType) {
        self.next_extension_header_type
    }

    fn length(&self) -> (r: u8) {
        4
    }

    fn generate(&self, buffer: &mut Vec<u8>) -> (n: usize) {
        buffer.push(0x01);
        write_u16_be(buffer, self.udp_port_number);
        buffer.push(self.next_extension_header_type.value());
        assert(buffer@ =~= old(buffer)@ + self.encoding());
        4
    }
}

} // verus!
