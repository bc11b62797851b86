//! EPS Bearer ID information element: a four-bit bearer identifier.

use vstd::prelude::*;

use crate::bytes::val16;
use crate::errors::GtpError;

use super::{
    InformationElementTraits,
    InformationElementType,
    ie_header,
    write_ie_header,
    read_ie_header,
};

verus! {

/// The inputs `parse` accepts: the element header is satisfied and the
/// declared body holds the bearer id octet.
pub open spec fn parse_ok(b: Seq<u8>) -> bool {
    b.len() >= 4 && b[0] == 73 && 4 + val16(b, 1) <= b.len() && val16(b, 1) >= 1
}

/// EBI information element.
pub struct InformationElement {
    /// At most 0xF.
    pub instance: u8,
    pub eps_bearer_id: u8,
}

impl InformationElement {
    pub fn new(eps_bearer_id: u8, instance: u8) -> (r: Result<Self, GtpError>)
        ensures
            instance > 0xF ==> r == Err::<Self, GtpError>(GtpError::InstanceTooLarge),
            instance <= 0xF && eps_bearer_id > 0xF ==> r == Err::<Self, GtpError>(
                GtpError::EbiTooLarge,
            ),
            instance <= 0xF && eps_bearer_id <= 0xF ==> (r matches Ok(ie) && ie
                == (InformationElement { instance, eps_bearer_id })),
    {
        if instance > 0xF {
            return Err(GtpError::InstanceTooLarge);
        }
        if eps_bearer_id > 0xF {
            return Err(GtpError::EbiTooLarge);
        }
        Ok(InformationElement { instance, eps_bearer_id })
    }

    /// Reads one element.  It fails exactly on a short buffer, a wrong type
    /// octet, a declared length that overruns the buffer or undercuts the
    /// body, or a value outside its catalog.
    pub fn parse(buffer: &[u8]) -> (r: Option<(Self, usize)>)
        ensures
            r is Some <==> parse_ok(buffer@),
            r matches Some((ie, n)) ==> {
                &&& buffer@.len() >= 4 + 1
                &&& buffer@[0] == 73
                &&& n == 4 + val16(buffer@, 1)
                &&& n <= buffer@.len()
                &&& ie.encoding().len() <= n
                &&& ie.wf()
                &&& ie.instance == buffer@[3] % 16
                &&& ie.eps_bearer_id == buffer@[4] % 16
            },
    {
        let (length, instance, total) = match read_ie_header(buffer, 73) {
            Some(h) => h,
            None => { return None },
        };
        if length < 1 {
            return None;
        }
        Some((InformationElement { instance, eps_bearer_id: buffer[4] % 16 }, total))
    }
}

impl InformationElementTraits for InformationElement {
    open spec fn encoding(&self) -> Seq<u8> {
        ie_header(73, 1, self.instance) + seq![self.eps_bearer_id]
    }

    open spec fn spec_type(&self) -> InformationElementType {
        InformationElementType::EBI
    }

    open spec fn spec_instance(&self) -> u8 {
        self.instance
    }

    open spec fn with_instance(&self, instance: u8) -> Self {
        InformationElement { instance, ..*self }
    }

    open spec fn wf(&self) -> bool {
        self.instance <= 0xF && self.eps_bearer_id <= 0xF
    }

    fn information_element_type(&self) -> (r: InformationElementType) {
        InformationElementType::EBI
    }

    fn instance(&self) -> (r: u8) {
        self.instance
    }

    fn set_instance(&mut self, instance: u8) -> (r: Result<u8, GtpError>) {
        if instance > 0xF {
            Err(GtpError::InstanceTooLarge)
        } else {
            self.instance = instance;
            Ok(instance)
        }
    }

    fn length(&self) -> (r: u16) {
        4 + 1
    }

    fn generate(&self, buffer: &mut Vec<u8>) -> (n: usize) {
        write_ie_header(buffer, 73, 1, self.instance);
        buffer.push(self.eps_bearer_id);
        assert(buffer@ =~= old(buffer)@ + self.encoding());
        4 + 1
    }
}

} // verus!
