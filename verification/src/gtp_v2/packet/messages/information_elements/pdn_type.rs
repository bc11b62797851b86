//! PDN Type information element: the requested packet-data-network kind.

use vstd::prelude::*;

use crate::bytes::val16;
use crate::errors::GtpError;

use super::{
    InformationElementTraits,
    InformationElementType,
    ie_header,
    write_ie_header,
    read_ie_header,
};

verus! {

/// The wire values of the PDNType octet.
#[derive(Copy, Clone, PartialEq, Eq, Structural, Debug)]
pub enum PDNType {
    IPv4,
    IPv6,
    IPv4v6,
    NonIp,
}

impl PDNType {
    /// The wire value this variant stands for.
    pub open spec fn spec_value(self) -> u8 {
        match self {
            PDNType::IPv4 => 1,
            PDNType::IPv6 => 2,
            PDNType::IPv4v6 => 3,
            PDNType::NonIp => 4,
        }
    }

    /// The variant a wire value stands for, if any.
    pub open spec fn spec_from_u8(v: u8) -> Option<PDNType> {
        if v == 1 {
            Some(PDNType::IPv4)
        } else if v == 2 {
            Some(PDNType::IPv6)
        } else if v == 3 {
            Some(PDNType::IPv4v6)
        } else if v == 4 {
            Some(PDNType::NonIp)
        } else {
            None
        }
    }

    pub fn value(&self) -> (r: u8)
        ensures
            r == self.spec_value(),
    {
        match self {
            PDNType::IPv4 => 1,
            PDNType::IPv6 => 2,
            PDNType::IPv4v6 => 3,
            PDNType::NonIp => 4,
        }
    }

    pub fn try_from_u8(v: u8) -> (r: Option<PDNType>)
        ensures
            r == Self::spec_from_u8(v),
    {
        if v == 1 {
            Some(PDNType::IPv4)
        } else if v == 2 {
            Some(PDNType::IPv6)
        } else if v == 3 {
            Some(PDNType::IPv4v6)
        } else if v == 4 {
            Some(PDNType::NonIp)
        } else {
            None
        }
    }
}
/// The inputs `parse` accepts: the element header is satisfied, the
/// declared body holds the value octet, and the value is in the catalog.
pub open spec fn parse_ok(b: Seq<u8>) -> bool {
    b.len() >= 4 && b[0] == 99 && 4 + val16(b, 1) <= b.len() && val16(b, 1) >= 1
        && PDNType::spec_from_u8(b[4]) is Some
}

/// PDNType information element.
pub struct InformationElement {
    /// At most 0xF.
    pub instance: u8,
    pub pdn_type: PDNType,
}

impl InformationElement {
    pub fn new(pdn_type: PDNType, instance: u8) -> (r: Result<Self, GtpError>)
        ensures
            instance > 0xF ==> r == Err::<Self, GtpError>(GtpError::InstanceTooLarge),
            instance <= 0xF ==> (r matches Ok(ie) && ie == (InformationElement { instance, pdn_type })),
    {
        if instance > 0xF {
            return Err(GtpError::InstanceTooLarge);
        }
        Ok(InformationElement { instance, pdn_type })
    }

    /// Reads one element.  It fails exactly on a short buffer, a wrong type
    /// octet, a declared length that overruns the buffer or undercuts the
    /// body, or a value outside its catalog.
    pub fn parse(buffer: &[u8]) -> (r: Option<(Self, usize)>)
        ensures
            r is Some <==> parse_ok(buffer@),
            r matches Some((ie, n)) ==> {
                &&& buffer@.len() >= 4 + 1
                &&& buffer@[0] == 99
                &&& n == 4 + val16(buffer@, 1)
                &&& n <= buffer@.len()
                &&& ie.encoding().len() <= n
                &&& ie.wf()
                &&& ie.instance == buffer@[3] % 16
                &&& Some(ie.pdn_type) == PDNType::spec_from_u8(buffer@[4])
            },
    {
        let (length, instance, total) = match read_ie_header(buffer, 99) {
            Some(h) => h,
            None => { return None },
        };
        if length < 1 {
            return None;
        }
        match PDNType::try_from_u8(buffer[4]) {
            Some(pdn_type) => Some((InformationElement { instance, pdn_type }, total)),
            None => None,
        }
    }
}

impl InformationElementTraits for InformationElement {
    open spec fn encoding(&self) -> Seq<u8> {
        ie_header(99, 1, self.instance) + seq![self.pdn_type.spec_value()]
    }

    open spec fn spec_type(&self) -> InformationElementType {
        InformationElementType::PDNType
    }

    open spec fn spec_instance(&self) -> u8 {
        self.instance
    }

    open spec fn with_instance(&self, instance: u8) -> Self {
        InformationElement { instance, ..*self }
    }

    open spec fn wf(&self) -> bool {
        self.instance <= 0xF
    }

    fn information_element_type(&self) -> (r: InformationElementType) {
        InformationElementType::PDNType
    }

    fn instance(&self) -> (r: u8) {
        self.instance
    }

    fn set_instance(&mut self, instance: u8) -> (r: Result<u8, GtpError>) {
        if instance > 0xF {
            Err(GtpError::InstanceTooLarge)
        } else {
            self.instance = instance;
            Ok(instance)
        }
    }

    fn length(&self) -> (r: u16) {
        4 + 1
    }

    fn generate(&self, buffer: &mut Vec<u8>) -> (n: usize) {
        write_ie_header(buffer, 99, 1, self.instance);
        buffer.push(self.pdn_type.value());
        assert(buffer@ =~= old(buffer)@ + self.encoding());
        4 + 1
    }
}

} // verus!
