//! Charging Characteristics information element: two opaque octets.

use vstd::prelude::*;

use crate::bytes::{be16, val16, write_u16_be, read_u16_be};
use crate::errors::GtpError;

use super::{
    InformationElementTraits,
    InformationElementType,
    ie_header,
    write_ie_header,
    read_ie_header,
};

verus! {

/// The inputs `parse` accepts: the element header is satisfied and the
/// declared body holds the two octets.
pub open spec fn parse_ok(b: Seq<u8>) -> bool {
    b.len() >= 4 && b[0] == 95 && 4 + val16(b, 1) <= b.len() && val16(b, 1) >= 2
}

/// ChargingCharacteristics information element.
pub struct InformationElement {
    /// At most 0xF.
    pub instance: u8,
    pub charging_characteristics: u16,
}

impl InformationElement {
    pub fn new(charging_characteristics: u16, instance: u8) -> (r: Result<Self, GtpError>)
        ensures
            instance > 0xF ==> r == Err::<Self, GtpError>(GtpError::InstanceTooLarge),
            instance <= 0xF ==> (r matches Ok(ie) && ie == (InformationElement { instance, charging_characteristics })),
    {
        if instance > 0xF {
            return Err(GtpError::InstanceTooLarge);
        }
        Ok(InformationElement { instance, charging_characteristics })
    }

    /// Reads one element.  It fails exactly on a short buffer, a wrong type
    /// octet, a declared length that overruns the buffer or undercuts the
    /// body, or a value outside its catalog.
    pub fn parse(buffer: &[u8]) -> (r: Option<(Self, usize)>)
        ensures
            r is Some <==> parse_ok(buffer@),
            r matches Some((ie, n)) ==> {
                &&& buffer@.len() >= 4 + 2
                &&& buffer@[0] == 95
                &&& n == 4 + val16(buffer@, 1)
                &&& n <= buffer@.len()
                &&& ie.encoding().len() <= n
                &&& ie.wf()
                &&& ie.instance == buffer@[3] % 16
                &&& ie.charging_characteristics == val16(buffer@, 4)
            },
    {
        let (length, instance, total) = match read_ie_header(buffer, 95) {
            Some(h) => h,
            None => { return None },
        };
        if length < 2 {
            return None;
        }
        Some((InformationElement { instance, charging_characteristics: read_u16_be(buffer, 4) }, total))
    }
}

impl InformationElementTraits for InformationElement {
    open spec fn encoding(&self) -> Seq<u8> {
        ie_header(95, 2, self.instance) + be16(self.charging_characteristics)
    }

    open spec fn spec_type(&self) -> InformationElementType {
        InformationElementType::ChargingCharacteristics
    }

    open spec fn spec_instance(&self) -> u8 {
        self.instance
    }

    open spec fn with_instance(&self, instance: u8) -> Self {
        InformationElement { instance, ..*self }
    }

    open spec fn wf(&self) -> bool {
        self.instance <= 0xF
    }

    fn information_element_type(&self) -> (r: InformationElementType) {
        InformationElementType::ChargingCharacteristics
    }

    fn instance(&self) -> (r: u8) {
        self.instance
    }

    fn set_instance(&mut self, instance: u8) -> (r: Result<u8, GtpError>) {
        if instance > 0xF {
            Err(GtpError::InstanceTooLarge)
        } else {
            self.instance = instance;
            Ok(instance)
        }
    }

    fn length(&self) -> (r: u16) {
        4 + 2
    }

    fn generate(&self, buffer: &mut Vec<u8>) -> (n: usize) {
        write_ie_header(buffer, 95, 2, self.instance);
        write_u16_be(buffer, self.charging_characteristics);
        assert(buffer@ =~= old(buffer)@ + self.encoding());
        4 + 2
    }
}

} // verus!
