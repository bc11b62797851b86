//! NSAPI information element: the type octet followed by one octet whose low
//! nibble is the NSAPI.

use vstd::prelude::*;

use crate::errors::GtpError;

use super::{InformationElementTraits, InformationElementType};

verus! {

/// The inputs `parse` accepts: the type octet and the value octet.
pub open spec fn parse_ok(b: Seq<u8>) -> bool {
    b.len() >= 2 && b[0] == 20
}

/// NSAPI information element.
pub struct InformationElement {
    /// At most 0xF.
    pub nsapi: u8,
}

impl InformationElement {
    /// Accepts exactly the values that fit the four-bit field.
    pub fn new(nsapi: u8) -> (r: Result<Self, GtpError>)
        ensures
            nsapi > 0xF ==> r == Err::<Self, GtpError>(GtpError::NsapiTooLarge),
            nsapi <= 0xF ==> (r matches Ok(ie) && ie.nsapi == nsapi),
    {
        if nsapi > 0xF {
            Err(GtpError::NsapiTooLarge)
        } else {
            Ok(InformationElement { nsapi })
        }
    }

    /// Reads one element: the low nibble of the value octet.  It fails
    /// exactly on a short buffer or a wrong type octet.
    pub fn parse(buffer: &[u8]) -> (r: Option<(Self, usize)>)
        ensures
            r is Some <==> parse_ok(buffer@),
            r matches Some((ie, n)) ==> n == 2 && ie.nsapi == buffer@[1] % 16 && ie.wf(),
    {
        if buffer.len() < 2 || buffer[0] != 20 {
            return None;
        }
        Some((InformationElement { nsapi: buffer[1] % 16 }, 2))
    }
}

impl InformationElementTraits for InformationElement {
    open spec fn encoding(&self) -> Seq<u8> {
        seq![20u8, self.nsapi]
    }

    open spec fn spec_type(&self) -> InformationElementType {
        InformationElementType::Nsapi
    }

    open spec fn wf(&self) -> bool {
        self.nsapi <= 0xF
    }

    fn information_element_type(&self) -> (r: InformationElementType) {
        InformationElementType::Nsapi
    }

    fn length(&self) -> (r: u16) {
        2
    }

    fn generate(&self, buffer: &mut Vec<u8>) -> (n: usize) {
        buffer.push(20);
        buffer.push(self.nsapi);
        assert(buffer@ =~= old(buffer)@ + self.encoding());
        2
    }
}

} // verus!
