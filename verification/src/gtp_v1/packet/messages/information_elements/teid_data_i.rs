//! Tunnel Endpoint Identifier Data I information element: the type octet
//! followed by the four-octet TEID, big-endian.

use vstd::prelude::*;

use crate::bytes::{be32, val32, write_u32_be, read_u32_be};

use super::{InformationElementTraits, InformationElementType};

verus! {

/// The inputs `parse` accepts: the type octet and the four TEID octets.
pub open spec fn parse_ok(b: Seq<u8>) -> bool {
    b.len() >= 5 && b[0] == 16
}

/// TEID Data I information element.
pub struct InformationElement {
    pub teid: u32,
}

impl InformationElement {
    pub fn new(teid: u32) -> (r: Self)
        ensures
            r.teid == teid,
    {
        InformationElement { teid }
    }

    pub fn teid(&self) -> (r: u32)
        ensures
            r == self.teid,
    {
        self.teid
    }

    pub fn set_teid(&mut self, teid: u32)
        ensures
            final(self).teid == teid,
    {
        self.teid = teid;
    }

    /// Reads one element.  It fails exactly on a short buffer or a wrong type
    /// octet.
    pub fn parse(buffer: &[u8]) -> (r: Option<(Self, usize)>)
        ensures
            r is Some <==> parse_ok(buffer@),
            r matches Some((ie, n)) ==> n == 5 && ie.teid == val32(buffer@, 1),
    {
        if buffer.len() < 5 || buffer[0] != 16 {
            return None;
        }
        Some((InformationElement { teid: read_u32_be(buffer, 1) }, 5))
    }
}

impl InformationElementTraits for InformationElement {
    open spec fn encoding(&self) -> Seq<u8> {
        seq![16u8] + be32(self.teid)
    }

    open spec fn spec_type(&self) -> InformationElementType {
        InformationElementType::TeidDataI
    }

    open spec fn wf(&self) -> bool {
        true
    }

    fn information_element_type(&self) -> (r: InformationElementType) {
        InformationElementType::TeidDataI
    }

    fn length(&self) -> (r: u16) {
        5
    }

    fn generate(&self, buffer: &mut Vec<u8>) -> (n: usize) {
        buffer.push(16);
        write_u32_be(buffer, self.teid);
        assert(buffer@ =~= old(buffer)@ + self.encoding());
        5
    }
}

} // verus!
