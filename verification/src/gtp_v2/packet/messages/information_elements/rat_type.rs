//! RAT Type information element: the radio access technology in use.

use vstd::prelude::*;

use crate::bytes::val16;
use crate::errors::GtpError;

use super::{
    InformationElementTraits,
    InformationElementType,
    ie_header,
    write_ie_header,
    read_ie_header,
};

verus! {

/// The wire values of the RATType octet.
#[derive(Copy, Clone, PartialEq, Eq, Structural, Debug)]
pub enum RATType {
    Reserved,
    UTRAN,
    GERAN,
    WLAN,
    GAN,
    HspaEvolution,
    EUTRAN,
    Virtual,
    EutranNbIot,
    LteM,
    NR,
}

impl RATType {
    /// The wire value this variant stands for.
    pub open spec fn spec_value(self) -> u8 {
        match self {
            RATType::Reserved => 0,
            RATType::UTRAN => 1,
            RATType::GERAN => 2,
            RATType::WLAN => 3,
            RATType::GAN => 4,
            RATType::HspaEvolution => 5,
            RATType::EUTRAN => 6,
            RATType::Virtual => 7,
            RATType::EutranNbIot => 8,
            RATType::LteM => 9,
            RATType::NR => 10,
        }
    }

    /// The variant a wire value stands for, if any.
    pub open spec fn spec_from_u8(v: u8) -> Option<RATType> {
        if v == 0 {
            Some(RATType::Reserved)
        } else if v == 1 {
            Some(RATType::UTRAN)
        } else if v == 2 {
            Some(RATType::GERAN)
        } else if v == 3 {
            Some(RATType::WLAN)
        } else if v == 4 {
            Some(RATType::GAN)
        } else if v == 5 {
            Some(RATType::HspaEvolution)
        } else if v == 6 {
            Some(RATType::EUTRAN)
        } else if v == 7 {
            Some(RATType::Virtual)
        } else if v == 8 {
            Some(RATType::EutranNbIot)
        } else if v == 9 {
            Some(RATType::LteM)
        } else if v == 10 {
            Some(RATType::NR)
        } else {
            None
        }
    }

    pub fn value(&self) -> (r: u8)
        ensures
            r == self.spec_value(),
    {
        match self {
            RATType::Reserved => 0,
            RATType::UTRAN => 1,
            RATType::GERAN => 2,
            RATType::WLAN => 3,
            RATType::GAN => 4,
            RATType::HspaEvolution => 5,
            RATType::EUTRAN => 6,
            RATType::Virtual => 7,
            RATType::EutranNbIot => 8,
            RATType::LteM => 9,
            RATType::NR => 10,
        }
    }

    pub fn try_from_u8(v: u8) -> (r: Option<RATType>)
        ensures
            r == Self::spec_from_u8(v),
    {
        if v == 0 {
            Some(RATType::Reserved)
        } else if v == 1 {
            Some(RATType::UTRAN)
        } else if v == 2 {
            Some(RATType::GERAN)
        } else if v == 3 {
            Some(RATType::WLAN)
        } else if v == 4 {
            Some(RATType::GAN)
        } else if v == 5 {
            Some(RATType::HspaEvolution)
        } else if v == 6 {
            Some(RATType::EUTRAN)
        } else if v == 7 {
            Some(RATType::Virtual)
        } else if v == 8 {
            Some(RATType::EutranNbIot)
        } else if v == 9 {
            Some(RATType::LteM)
        } else if v == 10 {
            Some(RATType::NR)
        } else {
            None
        }
    }
}
/// The inputs `parse` accepts: the element header is satisfied, the
/// declared body holds the value octet, and the value is in the catalog.
pub open spec fn parse_ok(b: Seq<u8>) -> bool {
    b.len() >= 4 && b[0] == 82 && 4 + val16(b, 1) <= b.len() && val16(b, 1) >= 1
        && RATType::spec_from_u8(b[4]) is Some
}

/// RATType information element.
pub struct InformationElement {
    /// At most 0xF.
    pub instance: u8,
    pub rat_type: RATType,
}

impl InformationElement {
    pub fn new(rat_type: RATType, instance: u8) -> (r: Result<Self, GtpError>)
        ensures
            instance > 0xF ==> r == Err::<Self, GtpError>(GtpError::InstanceTooLarge),
            instance <= 0xF ==> (r matches Ok(ie) && ie == (InformationElement { instance, rat_type })),
    {
        if instance > 0xF {
            return Err(GtpError::InstanceTooLarge);
        }
        Ok(InformationElement { instance, rat_type })
    }

    /// Reads one element.  It fails exactly on a short buffer, a wrong type
    /// octet, a declared length that overruns the buffer or undercuts the
    /// body, or a value outside its catalog.
    pub fn parse(buffer: &[u8]) -> (r: Option<(Self, usize)>)
        ensures
            r is Some <==> parse_ok(buffer@),
            r matches Some((ie, n)) ==> {
                &&& buffer@.len() >= 4 + 1
                &&& buffer@[0] == 82
                &&& n == 4 + val16(buffer@, 1)
                &&& n <= buffer@.len()
                &&& ie.encoding().len() <= n
                &&& ie.wf()
                &&& ie.instance == buffer@[3] % 16
                &&& Some(ie.rat_type) == RATType::spec_from_u8(buffer@[4])
            },
    {
        let (length, instance, total) = match read_ie_header(buffer, 82) {
            Some(h) => h,
            None => { return None },
        };
        if length < 1 {
            return None;
        }
        match RATType::try_from_u8(buffer[4]) {
            Some(rat_type) => Some((InformationElement { instance, rat_type }, total)),
            None => None,
        }
    }
}

impl InformationElementTraits for InformationElement {
    open spec fn encoding(&self) -> Seq<u8> {
        ie_header(82, 1, self.instance) + seq![self.rat_type.spec_value()]
    }

    open spec fn spec_type(&self) -> InformationElementType {
        InformationElementType::RATType
    }

    open spec fn spec_instance(&self) -> u8 {
        self.instance
    }

    open spec fn with_instance(&self, instance: u8) -> Self {
        InformationElement { instance, ..*self }
    }

    open spec fn wf(&self) -> bool {
        self.instance <= 0xF
    }

    fn information_element_type(&self) -> (r: InformationElementType) {
        InformationElementType::RATType
    }

    fn instance(&self) -> (r: u8) {
        self.instance
    }

    fn set_instance(&mut self, instance: u8) -> (r: Result<u8, GtpError>) {
        if instance > 0xF {
            Err(GtpError::InstanceTooLarge)
        } else {
            self.instance = instance;
            Ok(instance)
        }
    }

    fn length(&self) -> (r: u16) {
        4 + 1
    }

    fn generate(&self, buffer: &mut Vec<u8>) -> (n: usize) {
        write_ie_header(buffer, 82, 1, self.instance);
        buffer.push(self.rat_type.value());
        assert(buffer@ =~= old(buffer)@ + self.encoding());
        4 + 1
    }
}

} // verus!
