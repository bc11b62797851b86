//! GSN Address information element: the type octet, a two-octet length, and
//! the address octets (four for IPv4, sixteen for IPv6).

use vstd::prelude::*;

use crate::bytes::{be16, val16, write_u16_be, read_u16_be};
use crate::net::{IpAddress, Ipv4Address, Ipv6Address};

use super::{InformationElementTraits, InformationElementType};

verus! {

/// The inputs `parse` accepts: the type octet, a length field of four or
/// sixteen, and the address octets it declares.
pub open spec fn parse_ok(b: Seq<u8>) -> bool {
    b.len() >= 3 && b[0] == 133 && (val16(b, 1) == 4 || val16(b, 1) == 16) && 3 + val16(b, 1)
        <= b.len()
}

/// GSN Address information element.
pub struct InformationElement {
    pub gsn_address: IpAddress,
}

impl InformationElement {
    pub fn new(address: IpAddress) -> (r: Self)
        ensures
            r.gsn_address == address,
    {
        InformationElement { gsn_address: address }
    }

    /// Reads one element.  It fails exactly on a short buffer, a wrong type
    /// octet, or a length field that is neither 4 nor 16.
    pub fn parse(buffer: &[u8]) -> (r: Option<(Self, usize)>)
        ensures
            r is Some <==> parse_ok(buffer@),
            r matches Some((ie, n)) ==> {
                &&& n == 3 + val16(buffer@, 1)
                &&& n <= buffer@.len()
                &&& (ie.gsn_address is V4 <==> val16(buffer@, 1) == 4)
                &&& (ie.gsn_address matches IpAddress::V4(a) ==> a.encoding() =~= buffer@.subrange(
                    3,
                    7,
                ))
                &&& (ie.gsn_address is V6 <==> val16(buffer@, 1) == 16)
                &&& (ie.gsn_address matches IpAddress::V6(a) ==> a.encoding() =~= buffer@.subrange(
                    3,
                    19,
                ))
            },
    {
        if buffer.len() < 3 || buffer[0] != 133 {
            return None;
        }
        let length = read_u16_be(buffer, 1);
        if length == 4 {
            if buffer.len() < 7 {
                return None;
            }
            Some((InformationElement { gsn_address: IpAddress::V4(Ipv4Address::parse(buffer, 3)) }, 7))
        } else if length == 16 {
            if buffer.len() < 19 {
                return None;
            }
            Some(
                (InformationElement { gsn_address: IpAddress::V6(Ipv6Address::parse(buffer, 3)) }, 19),
            )
        } else {
            None
        }
    }
}

impl InformationElementTraits for InformationElement {
    open spec fn encoding(&self) -> Seq<u8> {
        match self.gsn_address {
            IpAddress::V4(a) => seq![133u8] + be16(4) + a.encoding(),
            IpAddress::V6(a) => seq![133u8] + be16(16) + a.encoding(),
        }
    }

    open spec fn spec_type(&self) -> InformationElementType {
        InformationElementType::GsnAddress
    }

    open spec fn wf(&self) -> bool {
        true
    }

    fn information_element_type(&self) -> (r: InformationElementType) {
        InformationElementType::GsnAddress
    }

    fn length(&self) -> (r: u16) {
        match self.gsn_address {
            IpAddress::V4(_) => 3 + 4,
            IpAddress::V6(_) => 3 + 16,
        }
    }

    fn generate(&self, buffer: &mut Vec<u8>) -> (n: usize) {
        buffer.push(133);
        match &self.gsn_address {
            IpAddress::V4(a) => {
                write_u16_be(buffer, 4);
                let n = a.generate(buffer);
                assert(buffer@ =~= old(buffer)@ + self.encoding());
                3 + n
            },
            IpAddress::V6(a) => {
                write_u16_be(buffer, 16);
                let n = a.generate(buffer);
                assert(buffer@ =~= old(buffer)@ + self.encoding());
                3 + n
            },
        }
    }
}

} // verus!
