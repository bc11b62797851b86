//! Selection Mode information element: how the APN was chosen.

use vstd::prelude::*;

use crate::bytes::val16;
use crate::errors::GtpError;

use super::{
    InformationElementTraits,
    InformationElementType,
    ie_header,
    write_ie_header,
    read_ie_header,
};

verus! {

/// The wire values of the SelectionMode octet.
#[derive(Copy, Clone, PartialEq, Eq, Structural, Debug)]
pub enum SelectionMode {
    MSorNetworkProvidedAPNSubscriptionVerified,
    MSProvidedAPNSubscriptionNotVerified,
    NetworkProvidedAPNSubscriptionNotVerified,
    ForFutureUse,
}

impl SelectionMode {
    /// The wire value this variant stands for.
    pub open spec fn spec_value(self) -> u8 {
        match self {
            SelectionMode::MSorNetworkProvidedAPNSubscriptionVerified => 0,
            SelectionMode::MSProvidedAPNSubscriptionNotVerified => 1,
            SelectionMode::NetworkProvidedAPNSubscriptionNotVerified => 2,
            SelectionMode::ForFutureUse => 3,
        }
    }

    /// The variant a wire value stands for, if any.
    pub open spec fn spec_from_u8(v: u8) -> Option<SelectionMode> {
        if v == 0 {
            Some(SelectionMode::MSorNetworkProvidedAPNSubscriptionVerified)
        } else if v == 1 {
            Some(SelectionMode::MSProvidedAPNSubscriptionNotVerified)
        } else if v == 2 {
            Some(SelectionMode::NetworkProvidedAPNSubscriptionNotVerified)
        } else if v == 3 {
            Some(SelectionMode::ForFutureUse)
        } else {
            None
        }
    }

    pub fn value(&self) -> (r: u8)
        ensures
            r == self.spec_value(),
    {
        match self {
            SelectionMode::MSorNetworkProvidedAPNSubscriptionVerified => 0,
            SelectionMode::MSProvidedAPNSubscriptionNotVerified => 1,
            SelectionMode::NetworkProvidedAPNSubscriptionNotVerified => 2,
            SelectionMode::ForFutureUse => 3,
        }
    }

    pub fn try_from_u8(v: u8) -> (r: Option<SelectionMode>)
        ensures
            r == Self::spec_from_u8(v),
    {
        if v == 0 {
            Some(SelectionMode::MSorNetworkProvidedAPNSubscriptionVerified)
        } else if v == 1 {
            Some(SelectionMode::MSProvidedAPNSubscriptionNotVerified)
        } else if v == 2 {
            Some(SelectionMode::NetworkProvidedAPNSubscriptionNotVerified)
        } else if v == 3 {
            Some(SelectionMode::ForFutureUse)
        } else {
            None
        }
    }
}
/// The inputs `parse` accepts: the element header is satisfied, the
/// declared body holds the value octet, and the value is in the catalog.
pub open spec fn parse_ok(b: Seq<u8>) -> bool {
    b.len() >= 4 && b[0] == 128 && 4 + val16(b, 1) <= b.len() && val16(b, 1) >= 1
        && SelectionMode::spec_from_u8(b[4]) is Some
}

/// SelectionMode information element.
pub struct InformationElement {
    /// At most 0xF.
    pub instance: u8,
    pub selection_mode: SelectionMode,
}

impl InformationElement {
    pub fn new(selection_mode: SelectionMode, instance: u8) -> (r: Result<Self, GtpError>)
        ensures
            instance > 0xF ==> r == Err::<Self, GtpError>(GtpError::InstanceTooLarge),
            instance <= 0xF ==> (r matches Ok(ie) && ie == (InformationElement { instance, selection_mode })),
    {
        if instance > 0xF {
            return Err(GtpError::InstanceTooLarge);
        }
        Ok(InformationElement { instance, selection_mode })
    }

    /// Reads one element.  It fails exactly on a short buffer, a wrong type
    /// octet, a declared length that overruns the buffer or undercuts the
    /// body, or a value outside its catalog.
    pub fn parse(buffer: &[u8]) -> (r: Option<(Self, usize)>)
        ensures
            r is Some <==> parse_ok(buffer@),
            r matches Some((ie, n)) ==> {
                &&& buffer@.len() >= 4 + 1
                &&& buffer@[0] == 128
                &&& n == 4 + val16(buffer@, 1)
                &&& n <= buffer@.len()
                &&& ie.encoding().len() <= n
                &&& ie.wf()
                &&& ie.instance == buffer@[3] % 16
                &&& Some(ie.selection_mode) == SelectionMode::spec_from_u8(buffer@[4])
            },
    {
        let (length, instance, total) = match read_ie_header(buffer, 128) {
            Some(h) => h,
            None => { return None },
        };
        if length < 1 {
            return None;
        }
        match SelectionMode::try_from_u8(buffer[4]) {
            Some(selection_mode) => Some((InformationElement { instance, selection_mode }, total)),
            None => None,
        }
    }
}

impl InformationElementTraits for InformationElement {
    open spec fn encoding(&self) -> Seq<u8> {
        ie_header(128, 1, self.instance) + seq![self.selection_mode.spec_value()]
    }

    open spec fn spec_type(&self) -> InformationElementType {
        InformationElementType::SelectionMode
    }

    open spec fn spec_instance(&self) -> u8 {
        self.instance
    }

    open spec fn with_instance(&self, instance: u8) -> Self {
        InformationElement { instance, ..*self }
    }

    open spec fn wf(&self) -> bool {
        self.instance <= 0xF
    }

    fn information_element_type(&self) -> (r: InformationElementType) {
        InformationElementType::SelectionMode
    }

    fn instance(&self) -> (r: u8) {
        self.instance
    }

    fn set_instance(&mut self, instance: u8) -> (r: Result<u8, GtpError>) {
        if instance > 0xF {
            Err(GtpError::InstanceTooLarge)
        } else {
            self.instance = instance;
            Ok(instance)
        }
    }

    fn length(&self) -> (r: u16) {
        4 + 1
    }

    fn generate(&self, buffer: &mut Vec<u8>) -> (n: usize) {
        write_ie_header(buffer, 128, 1, self.instance);
        buffer.push(self.selection_mode.value());
        assert(buffer@ =~= old(buffer)@ + self.encoding());
        4 + 1
    }
}

} // verus!
