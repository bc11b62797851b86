//! Maximum APN Restriction information element.

use vstd::prelude::*;

use crate::bytes::val16;
use crate::errors::GtpError;

use super::{
    InformationElementTraits,
    InformationElementType,
    ie_header,
    write_ie_header,
    read_ie_header,
};

verus! {

/// The wire values of the MaximumAPNRestrictionValue octet.
#[derive(Copy, Clone, PartialEq, Eq, Structural, Debug)]
pub enum MaximumAPNRestrictionValue {
    Unrestricted,
    Public1,
    Public2,
    Private1,
    Private2,
}

impl MaximumAPNRestrictionValue {
    /// The wire value this variant stands for.
    pub open spec fn spec_value(self) -> u8 {
        match self {
            MaximumAPNRestrictionValue::Unrestricted => 0,
            MaximumAPNRestrictionValue::Public1 => 1,
            MaximumAPNRestrictionValue::Public2 => 2,
            MaximumAPNRestrictionValue::Private1 => 3,
            MaximumAPNRestrictionValue::Private2 => 4,
        }
    }

    /// The variant a wire value stands for, if any.
    pub open spec fn spec_from_u8(v: u8) -> Option<MaximumAPNRestrictionValue> {
        if v == 0 {
            Some(MaximumAPNRestrictionValue::Unrestricted)
        } else if v == 1 {
            Some(MaximumAPNRestrictionValue::Public1)
        } else if v == 2 {
            Some(MaximumAPNRestrictionValue::Public2)
        } else if v == 3 {
            Some(MaximumAPNRestrictionValue::Private1)
        } else if v == 4 {
            Some(MaximumAPNRestrictionValue::Private2)
        } else {
            None
        }
    }

    pub fn value(&self) -> (r: u8)
        ensures
            r == self.spec_value(),
    {
        match self {
            MaximumAPNRestrictionValue::Unrestricted => 0,
            MaximumAPNRestrictionValue::Public1 => 1,
            MaximumAPNRestrictionValue::Public2 => 2,
            MaximumAPNRestrictionValue::Private1 => 3,
            MaximumAPNRestrictionValue::Private2 => 4,
        }
    }

    pub fn try_from_u8(v: u8) -> (r: Option<MaximumAPNRestrictionValue>)
        ensures
            r == Self::spec_from_u8(v),
    {
        if v == 0 {
            Some(MaximumAPNRestrictionValue::Unrestricted)
        } else if v == 1 {
            Some(MaximumAPNRestrictionValue::Public1)
        } else if v == 2 {
            Some(MaximumAPNRestrictionValue::Public2)
        } else if v == 3 {
            Some(MaximumAPNRestrictionValue::Private1)
        } else if v == 4 {
            Some(MaximumAPNRestrictionValue::Private2)
        } else {
            None
        }
    }
}
/// The inputs `parse` accepts: the element header is satisfied, the
/// declared body holds the value octet, and the value is in the catalog.
pub open spec fn parse_ok(b: Seq<u8>) -> bool {
    b.len() >= 4 && b[0] == 127 && 4 + val16(b, 1) <= b.len() && val16(b, 1) >= 1
        && MaximumAPNRestrictionValue::spec_from_u8(b[4]) is Some
}

/// APNRestriction information element.
pub struct InformationElement {
    /// At most 0xF.
    pub instance: u8,
    pub maximum_apn_restriction: MaximumAPNRestrictionValue,
}

impl InformationElement {
    pub fn new(maximum_apn_restriction: MaximumAPNRestrictionValue, instance: u8) -> (r: Result<Self, GtpError>)
        ensures
            instance > 0xF ==> r == Err::<Self, GtpError>(GtpError::InstanceTooLarge),
            instance <= 0xF ==> (r matches Ok(ie) && ie == (InformationElement { instance, maximum_apn_restriction })),
    {
        if instance > 0xF {
            return Err(GtpError::InstanceTooLarge);
        }
        Ok(InformationElement { instance, maximum_apn_restriction })
    }

    /// Reads one element.  It fails exactly on a short buffer, a wrong type
    /// octet, a declared length that overruns the buffer or undercuts the
    /// body, or a value outside its catalog.
    pub fn parse(buffer: &[u8]) -> (r: Option<(Self, usize)>)
        ensures
            r is Some <==> parse_ok(buffer@),
            r matches Some((ie, n)) ==> {
                &&& buffer@.len() >= 4 + 1
                &&& buffer@[0] == 127
                &&& n == 4 + val16(buffer@, 1)
                &&& n <= buffer@.len()
                &&& ie.encoding().len() <= n
                &&& ie.wf()
                &&& ie.instance == buffer@[3] % 16
                &&& Some(ie.maximum_apn_restriction) == MaximumAPNRestrictionValue::spec_from_u8(
                    buffer@[4],
                )
            },
    {
        let (length, instance, total) = match read_ie_header(buffer, 127) {
            Some(h) => h,
            None => { return None },
        };
        if length < 1 {
            return None;
        }
        match MaximumAPNRestrictionValue::try_from_u8(buffer[4]) {
            Some(maximum_apn_restriction) => Some(
                (InformationElement { instance, maximum_apn_restriction }, total),
            ),
            None => None,
        }
    }
}

impl InformationElementTraits for InformationElement {
    open spec fn encoding(&self) -> Seq<u8> {
        ie_header(127, 1, self.instance) + seq![self.maximum_apn_restriction.spec_value()]
    }

    open spec fn spec_type(&self) -> InformationElementType {
        InformationElementType::APNRestriction
    }

    open spec fn spec_instance(&self) -> u8 {
        self.instance
    }

    open spec fn with_instance(&self, instance: u8) -> Self {
        InformationElement { instance, ..*self }
    }

    open spec fn wf(&self) -> bool {
        self.instance <= 0xF
    }

    fn information_element_type(&self) -> (r: InformationElementType) {
        InformationElementType::APNRestriction
    }

    fn instance(&self) -> (r: u8) {
        self.instance
    }

    fn set_instance(&mut self, instance: u8) -> (r: Result<u8, GtpError>) {
        if instance > 0xF {
            Err(GtpError::InstanceTooLarge)
        } else {
            self.instance = instance;
            Ok(instance)
        }
    }

    fn length(&self) -> (r: u16) {
        4 + 1
    }

    fn generate(&self, buffer: &mut Vec<u8>) -> (n: usize) {
        write_ie_header(buffer, 127, 1, self.instance);
        buffer.push(self.maximum_apn_restriction.value());
        assert(buffer@ =~= old(buffer)@ + self.encoding());
        4 + 1
    }
}

} // verus!
