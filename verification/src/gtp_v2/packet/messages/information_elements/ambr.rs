//! Aggregate Maximum Bit Rate information element: the uplink and
//! downlink APN-AMBR values, four octets each, big-endian.

use vstd::prelude::*;

use crate::bytes::{be32, val16, val32, write_u32_be, read_u32_be};
use crate::errors::GtpError;

use super::{
    InformationElementTraits,
    InformationElementType,
    ie_header,
    write_ie_header,
    read_ie_header,
};

verus! {

/// The inputs `parse` accepts: the element header is satisfied and the
/// declared body holds both bitrates.
pub open spec fn parse_ok(b: Seq<u8>) -> bool {
    b.len() >= 4 && b[0] == 72 && 4 + val16(b, 1) <= b.len() && val16(b, 1) >= 8
}

/// AMBR information element.
pub struct InformationElement {
    /// At most 0xF.
    pub instance: u8,
    pub uplink: u32,
    pub downlink: u32,
}

impl InformationElement {
    pub fn new(uplink: u32, downlink: u32, instance: u8) -> (r: Result<Self, GtpError>)
        ensures
            instance > 0xF ==> r == Err::<Self, GtpError>(GtpError::InstanceTooLarge),
            instance <= 0xF ==> (r matches Ok(ie) && ie == (InformationElement { instance, uplink, downlink })),
    {
        if instance > 0xF {
            return Err(GtpError::InstanceTooLarge);
        }
        Ok(InformationElement { instance, uplink, downlink })
    }

    /// Reads one element.  It fails exactly on a short buffer, a wrong type
    /// octet, a declared length that overruns the buffer or undercuts the
    /// body, or a value outside its catalog.
    pub fn parse(buffer: &[u8]) -> (r: Option<(Self, usize)>)
        ensures
            r is Some <==> parse_ok(buffer@),
            r matches Some((ie, n)) ==> {
                &&& buffer@.len() >= 4 + 8
                &&& buffer@[0] == 72
                &&& n == 4 + val16(buffer@, 1)
                &&& n <= buffer@.len()
                &&& ie.encoding().len() <= n
                &&& ie.wf()
                &&& ie.instance == buffer@[3] % 16
                &&& ie.uplink == val32(buffer@, 4)
                &&& ie.downlink == val32(buffer@, 8)
            },
    {
        let (length, instance, total) = match read_ie_header(buffer, 72) {
            Some(h) => h,
            None => { return None },
        };
        if length < 8 {
            return None;
        }
        Some(
            (
                InformationElement {
                    instance,
                    uplink: read_u32_be(buffer, 4),
                    downlink: read_u32_be(buffer, 8),
                },
                total,
            ),
        )
    }
}

impl InformationElementTraits for InformationElement {
    open spec fn encoding(&self) -> Seq<u8> {
        ie_header(72, 8, self.instance) + be32(self.uplink) + be32(self.downlink)
    }

    open spec fn spec_type(&self) -> InformationElementType {
        InformationElementType::AMBR
    }

    open spec fn spec_instance(&self) -> u8 {
        self.instance
    }

    open spec fn with_instance(&self, instance: u8) -> Self {
        InformationElement { instance, ..*self }
    }

    open spec fn wf(&self) -> bool {
        self.instance <= 0xF
    }

    fn information_element_type(&self) -> (r: InformationElementType) {
        InformationElementType::AMBR
    }

    fn instance(&self) -> (r: u8) {
        self.instance
    }

    fn set_instance(&mut self, instance: u8) -> (r: Result<u8, GtpError>) {
        if instance > 0xF {
            Err(GtpError::InstanceTooLarge)
        } else {
            self.instance = instance;
            Ok(instance)
        }
    }

    fn length(&self) -> (r: u16) {
        4 + 8
    }

    fn generate(&self, buffer: &mut Vec<u8>) -> (n: usize) {
        write_ie_header(buffer, 72, 8, self.instance);
        write_u32_be(buffer, self.uplink);
        write_u32_be(buffer, self.downlink);
        assert(buffer@ =~= old(buffer)@ + self.encoding());
        4 + 8
    }
}

} // verus!
