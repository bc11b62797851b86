//! Long PDCP PDU number extension header.
//!
//! Eight octets on the wire: length (in four-octet units), the 18-bit number
//! big-endian in three octets, three padding octets, and the type of the
//! successor record.

use vstd::prelude::*;

use crate::bytes::{be24, val24, write_u24_be, read_u24_be};
use crate::errors::GtpError;

use super::{ExtensionHeaderTraits, ExtensionHeaderType};

verus! {

/// Long PDCP PDU number extension header.
pub struct ExtensionHeader {
    /// At most 18 bits when set through `set_pdcp_pdu_number`; decoding admits
    /// any 24-bit value the wire carries.
    pub pdcp_pdu_number: u32,
    pub next_extension_header_type: ExtensionHeaderType,
}

impl ExtensionHeader {
    pub fn new() -> (r: ExtensionHeader)
        ensures
            r.pdcp_pdu_number == 0,
            r.next_extension_header_type == ExtensionHeaderType::NoMore,
    {
        ExtensionHeader { pdcp_pdu_number: 0, next_extension_header_type: ExtensionHeaderType::NoMore }
    }

    /// Reads one record.  It fails exactly on a short buffer or an unknown
    /// successor type octet.
    pub fn parse(buffer: &[u8]) -> (r: Option<(Self, usize)>)
        ensures
            r is Some <==> buffer@.len() >= 8 && ExtensionHeaderType::spec_from_u8(buffer@[7])
                is Some,
            r matches Some((eh, n)) ==> {
                &&& n == 8
                &&& eh.pdcp_pdu_number == val24(buffer@, 1)
                &&& Some(eh.next_extension_header_type) == ExtensionHeaderType::spec_from_u8(
                    buffer@[7],
                )
            },
    {
        if buffer.len() < 8 {
            return None;
        }
        let value = read_u24_be(buffer, 1);
        match ExtensionHeaderType::try_from_u8(buffer[7]) {
            Some(next) => Some(
                (ExtensionHeader { pdcp_pdu_number: value, next_extension_header_type: next }, 8),
            ),
            None => None,
        }
    }

    /// Accepts exactly the values that fit 18 bits.
    pub fn set_pdcp_pdu_number(&mut self, value: u32) -> (r: Result<u32, GtpError>)
        ensures
            value > 0x3FFFF ==> r == Err::<u32, GtpError>(GtpError::PdcpPduNumberTooLarge)
                && *final(self) == *old(self),
            value <= 0x3FFFF ==> {
                &&& r == Ok::<u32, GtpError>(value)
                &&& final(self).pdcp_pdu_number == value
                &&& final(self).next_extension_header_type == old(self).next_extension_header_type
            },
    {
        if value > 0x3FFFF {
            Err(GtpError::PdcpPduNumberTooLarge)
        } else {
            self.pdcp_pdu_number = value;
            Ok(self.pdcp_pdu_number)
        }
    }

    pub fn pdcp_pdu_number(&self) -> (r: u32)
        ensures
            r == self.pdcp_pdu_number,
    {
        self.pdcp_pdu_number
    }
}

impl ExtensionHeaderTraits for ExtensionHeader {
    open spec fn encoding(&self) -> Seq<u8> {
        seq![0x02u8] + be24(self.pdcp_pdu_number) + seq![
            0x00u8,
            0x00u8,
            0x00u8,
            self.next_extension_header_type.spec_value(),
        ]
    }

    open spec fn spec_type(&self) -> ExtensionHeaderType {
        ExtensionHeaderType::LongPdcpPduNumber
    }

    open spec fn spec_next(&self) -> ExtensionHeaderType {
        self.next_extension_header_type
    }

    open spec fn with_next(&self, next: ExtensionHeaderType) -> Self {
        ExtensionHeader { pdcp_pdu_number: self.pdcp_pdu_number, next_extension_header_type: next }
    }

    fn extension_header_type(&self) -> (r: ExtensionHeaderType) {
        ExtensionHeaderType::LongPdcpPduNumber
    }

    fn set_next_extension_header_type(&mut self, next_extension_header_type: ExtensionHeaderType) {
        self.next_extension_header_type = next_extension_header_type;
    }

    fn next_extension_header_type(&self) -> (r: ExtensionHeaderType) {
        self.next_extension_header_type
    }

    fn length(&self) -> (r: u8) {
        8
    }

    fn generate(&self, buffer: &mut Vec<u8>) -> (n: usize) {
        buffer.push(0x02);
        write_u24_be(buffer, self.pdcp_pdu_number);
        buffer.push(0x00);
        buffer.push(0x00);
        buffer.push(0x00);
        buffer.push(self.next_extension_header_type.value());
        assert(buffer@ =~= old(buffer)@ + self.encoding());
        8
    }
}

} // verus!
