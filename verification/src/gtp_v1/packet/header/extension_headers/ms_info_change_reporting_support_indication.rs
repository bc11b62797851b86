//! MS Info Change Reporting support indication extension header.
//!
//! Four octets on the wire: length (in four-octet units), two fixed 0xFF
//! octets, and the type of the successor record.

use vstd::prelude::*;

use super::{ExtensionHeaderTraits, ExtensionHeaderType};

verus! {

/// MS Info Change Reporting support indication extension header.  It carries no payload of its own.
pub struct ExtensionHeader {
    pub next_extension_header_type: ExtensionHeaderType,
}

impl ExtensionHeader {
    pub fn new() -> (r: ExtensionHeader)
        ensures
            r.next_extension_header_type == ExtensionHeaderType::NoMore,
    {
        ExtensionHeader { next_extension_header_type: ExtensionHeaderType::NoMore }
    }

    /// Reads one record.  It fails exactly on a short buffer or an unknown
    /// successor type octet.
    pub fn parse(buffer: &[u8]) -> (r: Option<(Self, usize)>)
        ensures
            r is Some <==> buffer@.len() >= 4 && ExtensionHeaderType::spec_from_u8(buffer@[3])
                is Some,
            r matches Some((eh, n)) ==> n == 4 && Some(eh.next_extension_header_type)
                == ExtensionHeaderType::spec_from_u8(buffer@[3]),
    {
        if buffer.len() < 4 {
            return None;
        }
        match ExtensionHeaderType::try_from_u8(buffer[3]) {
            Some(next) => Some((ExtensionHeader { next_extension_header_type: next }, 4)),
            None => None,
        }
    }
}

impl ExtensionHeaderTraits for ExtensionHeader {
    open spec fn encoding(&self) -> Seq<u8> {
        seq![0x01u8, 0xFFu8, 0xFFu8, self.next_extension_header_type.spec_value()]
    }

    open spec fn spec_type(&self) -> ExtensionHeaderType {
        ExtensionHeaderType::MsInfoChange
    }

    open spec fn spec_next(&self) -> ExtensionHeaderType {
        self.next_extension_header_type
    }

    open spec fn with_next(&self, next: ExtensionHeaderType) -> Self {
        ExtensionHeader { next_extension_header_type: next }
    }

    fn extension_header_type(&self) -> (r: ExtensionHeaderType) {
        ExtensionHeaderType::MsInfoChange
    }

    fn set_next_extension_header_type(&mut self, next_extension_header_type: ExtensionHeaderType) {
        self.next_extension_header_type = next_extension_header_type;
    }

    fn next_extension_header_type(&self) -> (r: ExtensionHeaderType) {
        self.next_extension_header_type
    }

    fn length(&self) -> (r: u8) {
        4
    }

    fn generate(&self, buffer: &mut Vec<u8>) -> (n: usize) {
        buffer.push(0x01);
        buffer.push(0xFF);
        buffer.push(0xFF);
        buffer.push(self.next_extension_header_type.value());
        assert(buffer@ =~= old(buffer)@ + self.encoding());
        4
    }
}

} // verus!
