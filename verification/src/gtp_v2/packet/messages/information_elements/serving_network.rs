//! Serving Network information element: the PLMN the subscriber is served
//! by, packed into three octets.

use vstd::prelude::*;

use crate::bytes::val16;
use crate::errors::GtpError;

use super::{
    InformationElementTraits,
    InformationElementType,
    ie_header,
    write_ie_header,
    read_ie_header,
};
use super::user_location_information::PLMN;

verus! {

/// The inputs `parse` accepts: the element header is satisfied and the
/// declared body holds the three PLMN octets.
pub open spec fn parse_ok(b: Seq<u8>) -> bool {
    b.len() >= 4 && b[0] == 83 && 4 + val16(b, 1) <= b.len() && val16(b, 1) >= 3
}

/// Serving Network information element.
pub struct InformationElement {
    /// At most 0xF.
    pub instance: u8,
    pub plmn: PLMN,
}

impl InformationElement {
    pub fn new(plmn: PLMN, instance: u8) -> (r: Result<Self, GtpError>)
        ensures
            instance > 0xF ==> r == Err::<Self, GtpError>(GtpError::InstanceTooLarge),
            instance <= 0xF ==> (r matches Ok(ie) && ie == (InformationElement { instance, plmn })),
    {
        if instance > 0xF {
            return Err(GtpError::InstanceTooLarge);
        }
        Ok(InformationElement { instance, plmn })
    }

    /// Reads one element.  It fails exactly on a short buffer, a wrong type
    /// octet, or a declared length that overruns the buffer or undercuts the
    /// three PLMN octets.
    pub fn parse(buffer: &[u8]) -> (r: Option<(Self, usize)>)
        ensures
            r is Some <==> parse_ok(buffer@),
            r matches Some((ie, n)) ==> {
                &&& buffer@.len() >= 7
                &&& buffer@[0] == 83
                &&& n == 4 + val16(buffer@, 1)
                &&& n <= buffer@.len()
                &&& ie.encoding().len() <= n
                &&& ie.wf()
                &&& ie.instance == buffer@[3] % 16
            },
    {
        let (length, instance, total) = match read_ie_header(buffer, 83) {
            Some(h) => h,
            None => { return None },
        };
        if length < 3 {
            return None;
        }
        let buffer_len = buffer.len();
        match PLMN::parse(&buffer[4..buffer_len]) {
            Some((plmn, _)) => {
                proof {
                    plmn.lemma_encoding_len();
                }
                Some((InformationElement { instance, plmn }, total))
            },
            None => None,
        }
    }
}

impl InformationElementTraits for InformationElement {
    open spec fn encoding(&self) -> Seq<u8> {
        ie_header(83, 3, self.instance) + self.plmn.encoding()
    }

    open spec fn spec_type(&self) -> InformationElementType {
        InformationElementType::ServingNetwork
    }

    open spec fn spec_instance(&self) -> u8 {
        self.instance
    }

    open spec fn with_instance(&self, instance: u8) -> Self {
        InformationElement { instance, ..*self }
    }

    open spec fn wf(&self) -> bool {
        self.instance <= 0xF
    }

    fn information_element_type(&self) -> (r: InformationElementType) {
        InformationElementType::ServingNetwork
    }

    fn instance(&self) -> (r: u8) {
        self.instance
    }

    fn set_instance(&mut self, instance: u8) -> (r: Result<u8, GtpError>) {
        if instance > 0xF {
            Err(GtpError::InstanceTooLarge)
        } else {
            self.instance = instance;
            Ok(instance)
        }
    }

    fn length(&self) -> (r: u16) {
        proof {
            self.plmn.lemma_encoding_len();
        }
        4 + 3
    }

    fn generate(&self, buffer: &mut Vec<u8>) -> (n: usize) {
        proof {
            self.plmn.lemma_encoding_len();
        }
        write_ie_header(buffer, 83, 3, self.instance);
        self.plmn.generate(buffer);
        assert(buffer@ =~= old(buffer)@ + self.encoding());
        7
    }
}

} // verus!
