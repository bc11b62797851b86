//! UE Time Zone information element: the offset from UTC in quarter
//! hours, nibble-swapped on the wire, and the daylight-saving adjustment.

use vstd::prelude::*;

use crate::bytes::val16;
use crate::errors::GtpError;

use super::{
    InformationElementTraits,
    InformationElementType,
    ie_header,
    write_ie_header,
    read_ie_header,
};

verus! {

/// The wire values of the DaylightSavingsTimeAdjustment octet.
#[derive(Copy, Clone, PartialEq, Eq, Structural, Debug)]
pub enum DaylightSavingsTimeAdjustment {
    NoAdjustment,
    OneHourAdjustment,
    TwoHoursAdjustment,
    Spare,
}

impl DaylightSavingsTimeAdjustment {
    /// The wire value this variant stands for.
    pub open spec fn spec_value(self) -> u8 {
        match self {
            DaylightSavingsTimeAdjustment::NoAdjustment => 0,
            DaylightSavingsTimeAdjustment::OneHourAdjustment => 1,
            DaylightSavingsTimeAdjustment::TwoHoursAdjustment => 2,
            DaylightSavingsTimeAdjustment::Spare => 3,
        }
    }

    /// The variant a wire value stands for, if any.
    pub open spec fn spec_from_u8(v: u8) -> Option<DaylightSavingsTimeAdjustment> {
        if v == 0 {
            Some(DaylightSavingsTimeAdjustment::NoAdjustment)
        } else if v == 1 {
            Some(DaylightSavingsTimeAdjustment::OneHourAdjustment)
        } else if v == 2 {
            Some(DaylightSavingsTimeAdjustment::TwoHoursAdjustment)
        } else if v == 3 {
            Some(DaylightSavingsTimeAdjustment::Spare)
        } else {
            None
        }
    }

    pub fn value(&self) -> (r: u8)
        ensures
            r == self.spec_value(),
    {
        match self {
            DaylightSavingsTimeAdjustment::NoAdjustment => 0,
            DaylightSavingsTimeAdjustment::OneHourAdjustment => 1,
            DaylightSavingsTimeAdjustment::TwoHoursAdjustment => 2,
            DaylightSavingsTimeAdjustment::Spare => 3,
        }
    }

    pub fn try_from_u8(v: u8) -> (r: Option<DaylightSavingsTimeAdjustment>)
        ensures
            r == Self::spec_from_u8(v),
    {
        if v == 0 {
            Some(DaylightSavingsTimeAdjustment::NoAdjustment)
        } else if v == 1 {
            Some(DaylightSavingsTimeAdjustment::OneHourAdjustment)
        } else if v == 2 {
            Some(DaylightSavingsTimeAdjustment::TwoHoursAdjustment)
        } else if v == 3 {
            Some(DaylightSavingsTimeAdjustment::Spare)
        } else {
            None
        }
    }
}
/// The inputs `parse` accepts: the element header is satisfied, the
/// declared body holds both octets, and the adjustment is in the catalog.
pub open spec fn parse_ok(b: Seq<u8>) -> bool {
    b.len() >= 4 && b[0] == 114 && 4 + val16(b, 1) <= b.len() && val16(b, 1) >= 2
        && DaylightSavingsTimeAdjustment::spec_from_u8(b[5]) is Some
}

/// UETimeZone information element.
pub struct InformationElement {
    /// At most 0xF.
    pub instance: u8,
    pub timezone_offset: u8,
    pub dst_adjustment: DaylightSavingsTimeAdjustment,
}

impl InformationElement {
    pub fn new(timezone_offset: u8, dst_adjustment: DaylightSavingsTimeAdjustment, instance: u8) -> (r: Result<Self, GtpError>)
        ensures
            instance > 0xF ==> r == Err::<Self, GtpError>(GtpError::InstanceTooLarge),
            instance <= 0xF ==> (r matches Ok(ie) && ie == (InformationElement { instance, timezone_offset, dst_adjustment })),
    {
        if instance > 0xF {
            return Err(GtpError::InstanceTooLarge);
        }
        Ok(InformationElement { instance, timezone_offset, dst_adjustment })
    }

    /// Reads one element.  It fails exactly on a short buffer, a wrong type
    /// octet, a declared length that overruns the buffer or undercuts the
    /// body, or a value outside its catalog.
    pub fn parse(buffer: &[u8]) -> (r: Option<(Self, usize)>)
        ensures
            r is Some <==> parse_ok(buffer@),
            r matches Some((ie, n)) ==> {
                &&& buffer@.len() >= 4 + 2
                &&& buffer@[0] == 114
                &&& n == 4 + val16(buffer@, 1)
                &&& n <= buffer@.len()
                &&& ie.encoding().len() <= n
                &&& ie.wf()
                &&& ie.instance == buffer@[3] % 16
                &&& ie.timezone_offset == (buffer@[4] % 16) * 16 + buffer@[4] / 16
                &&& Some(ie.dst_adjustment) == DaylightSavingsTimeAdjustment::spec_from_u8(
                    buffer@[5],
                )
            },
    {
        let (length, instance, total) = match read_ie_header(buffer, 114) {
            Some(h) => h,
            None => { return None },
        };
        if length < 2 {
            return None;
        }
        let dst_adjustment = match DaylightSavingsTimeAdjustment::try_from_u8(buffer[5]) {
            Some(v) => v,
            None => { return None },
        };
        let timezone_offset = (buffer[4] % 16) * 16 + buffer[4] / 16;
        Some((InformationElement { instance, timezone_offset, dst_adjustment }, total))
    }
}

impl InformationElementTraits for InformationElement {
    open spec fn encoding(&self) -> Seq<u8> {
        ie_header(114, 2, self.instance) + seq![
            ((self.timezone_offset % 16) * 16 + self.timezone_offset / 16) as u8,
            self.dst_adjustment.spec_value(),
        ]
    }

    open spec fn spec_type(&self) -> InformationElementType {
        InformationElementType::UETimeZone
    }

    open spec fn spec_instance(&self) -> u8 {
        self.instance
    }

    open spec fn with_instance(&self, instance: u8) -> Self {
        InformationElement { instance, ..*self }
    }

    open spec fn wf(&self) -> bool {
        self.instance <= 0xF
    }

    fn information_element_type(&self) -> (r: InformationElementType) {
        InformationElementType::UETimeZone
    }

    fn instance(&self) -> (r: u8) {
        self.instance
    }

    fn set_instance(&mut self, instance: u8) -> (r: Result<u8, GtpError>) {
        if instance > 0xF {
            Err(GtpError::InstanceTooLarge)
        } else {
            self.instance = instance;
            Ok(instance)
        }
    }

    fn length(&self) -> (r: u16) {
        4 + 2
    }

    fn generate(&self, buffer: &mut Vec<u8>) -> (n: usize) {
        write_ie_header(buffer, 114, 2, self.instance);
        buffer.push((self.timezone_offset % 16) * 16 + self.timezone_offset / 16);
        buffer.push(self.dst_adjustment.value());
        assert(buffer@ =~= old(buffer)@ + self.encoding());
        4 + 2
    }
}

} // verus!
