//! PDN Address Allocation information element: the PDN type octet, then the
//! IPv6 prefix length and address when the type carries one, then the IPv4
//! address when the type carries one.

use vstd::prelude::*;

use crate::bytes::val16;
use crate::errors::GtpError;
use crate::net::{Ipv4Address, Ipv6Address};

use super::{
    InformationElementTraits,
    InformationElementType,
    ie_header,
    write_ie_header,
    read_ie_header,
};
use super::pdn_type::PDNType;
use super::f_teid::{opt_v4, opt_v6};

verus! {

/// The inputs `parse` accepts: the element header is satisfied, the PDN type
/// is in the catalog, and the declared body holds every address that type
/// announces.
pub open spec fn parse_ok(b: Seq<u8>) -> bool {
    &&& b.len() >= 4
    &&& b[0] == 79
    &&& 4 + val16(b, 1) <= b.len()
    &&& val16(b, 1) >= 1
    &&& match PDNType::spec_from_u8(b[4]) {
        Some(t) => {
            &&& ((t is IPv6 || t is IPv4v6) ==> val16(b, 1) >= 18)
            &&& ((t is IPv4 || t is IPv4v6) ==> val16(b, 1) >= 1 + (if t is IPv4v6 {
                17int
            } else {
                0int
            }) + 4)
        },
        None => false,
    }
}

/// PDN Address Allocation information element.
pub struct InformationElement {
    /// At most 0xF.
    pub instance: u8,
    pub pdn_type: PDNType,
    /// Present exactly when the PDN type is IPv4 or IPv4v6.
    pub ipv4_address: Option<Ipv4Address>,
    /// Present exactly when the PDN type is IPv6 or IPv4v6.
    pub ipv6_address_and_prefix: Option<(Ipv6Address, u8)>,
}

/// The image of an optional prefixed IPv6 address: the prefix length octet
/// then the address, or nothing.
pub open spec fn opt_v6_prefixed(a: Option<(Ipv6Address, u8)>) -> Seq<u8> {
    match a {
        Some((v, prefix)) => seq![prefix] + v.encoding(),
        None => Seq::empty(),
    }
}

impl InformationElement {
    /// The addresses present agree with the PDN type.
    pub open spec fn addresses_consistent(&self) -> bool {
        &&& (self.ipv4_address is Some <==> (self.pdn_type is IPv4 || self.pdn_type is IPv4v6))
        &&& (self.ipv6_address_and_prefix is Some <==> (self.pdn_type is IPv6 || self.pdn_type
            is IPv4v6))
    }

    /// The body: the PDN type octet, then the announced addresses.
    pub open spec fn body(&self) -> Seq<u8> {
        seq![(self.pdn_type.spec_value() % 8) as u8] + opt_v6_prefixed(
            self.ipv6_address_and_prefix,
        ) + opt_v4(self.ipv4_address)
    }

    /// Accepts exactly the combinations in which each address the PDN type
    /// calls for is present and no other: a missing IPv4 address, a missing
    /// IPv6 address, then a surplus address is reported, in that order.
    pub fn new(
        pdn_type: PDNType,
        ipv4_address: Option<Ipv4Address>,
        ipv6_address_and_prefix: Option<(Ipv6Address, u8)>,
        instance: u8,
    ) -> (r: Result<Self, GtpError>)
        ensures
            instance > 0xF ==> r == Err::<Self, GtpError>(GtpError::InstanceTooLarge),
            instance <= 0xF && (pdn_type is IPv4 || pdn_type is IPv4v6) && ipv4_address is None
                ==> r == Err::<Self, GtpError>(GtpError::Ipv4AddressMissing),
            instance <= 0xF && !((pdn_type is IPv4 || pdn_type is IPv4v6) && ipv4_address is None)
                && (pdn_type is IPv6 || pdn_type is IPv4v6) && ipv6_address_and_prefix is None
                ==> r == Err::<Self, GtpError>(GtpError::Ipv6AddressMissing),
            r matches Ok(ie) ==> ie == (InformationElement {
                instance,
                pdn_type,
                ipv4_address,
                ipv6_address_and_prefix,
            }) && ie.wf(),
            instance <= 0xF && ((pdn_type is IPv4 && ipv4_address is Some
                && ipv6_address_and_prefix is None) || (pdn_type is IPv6 && ipv4_address is None
                && ipv6_address_and_prefix is Some) || (pdn_type is IPv4v6 && ipv4_address is Some
                && ipv6_address_and_prefix is Some) || (pdn_type is NonIp && ipv4_address is None
                && ipv6_address_and_prefix is None)) ==> r is Ok,
    {
        if instance > 0xF {
            return Err(GtpError::InstanceTooLarge);
        }
        let wants_v4 = matches!(pdn_type, PDNType::IPv4 | PDNType::IPv4v6);
        let wants_v6 = matches!(pdn_type, PDNType::IPv6 | PDNType::IPv4v6);
        if wants_v4 && ipv4_address.is_none() {
            return Err(GtpError::Ipv4AddressMissing);
        }
        if wants_v6 && ipv6_address_and_prefix.is_none() {
            return Err(GtpError::Ipv6AddressMissing);
        }
        if !wants_v4 && ipv4_address.is_some() {
            return Err(GtpError::AddressNotAllowed);
        }
        if !wants_v6 && ipv6_address_and_prefix.is_some() {
            return Err(GtpError::AddressNotAllowed);
        }
        Ok(InformationElement { instance, pdn_type, ipv4_address, ipv6_address_and_prefix })
    }

    /// Reads one element: the PDN type announces which addresses follow.  It
    /// fails exactly on a header the buffer cannot satisfy, a PDN type
    /// outside the catalog, or a declared length that undercuts the
    /// announced addresses.
    pub fn parse(buffer: &[u8]) -> (r: Option<(Self, usize)>)
        ensures
            r is Some <==> parse_ok(buffer@),
            r matches Some((ie, n)) ==> {
                &&& buffer@.len() >= 5
                &&& buffer@[0] == 79
                &&& n == 4 + val16(buffer@, 1)
                &&& n <= buffer@.len()
                &&& ie.wf()
                &&& ie.encoding().len() <= n
                &&& ie.instance == buffer@[3] % 16
                &&& Some(ie.pdn_type) == PDNType::spec_from_u8(buffer@[4])
                &&& ie.addresses_consistent()
            },
    {
        let (length, instance, total) = match read_ie_header(buffer, 79) {
            Some(h) => h,
            None => { return None },
        };
        if length < 1 {
            return None;
        }
        let pdn_type = match PDNType::try_from_u8(buffer[4]) {
            Some(t) => t,
            None => { return None },
        };
        let wants_v4 = matches!(pdn_type, PDNType::IPv4 | PDNType::IPv4v6);
        let wants_v6 = matches!(pdn_type, PDNType::IPv6 | PDNType::IPv4v6);
        let mut pos: usize = 5;
        let ipv6_address_and_prefix: Option<(Ipv6Address, u8)> = if wants_v6 {
            if pos + 17 > total {
                return None;
            }
            let prefix = buffer[pos];
            let a = Ipv6Address::parse(buffer, pos + 1);
            pos = pos + 17;
            Some((a, prefix))
        } else {
            None
        };
        let ipv4_address: Option<Ipv4Address> = if wants_v4 {
            if pos + 4 > total {
                return None;
            }
            let a = Ipv4Address::parse(buffer, pos);
            pos = pos + 4;
            Some(a)
        } else {
            None
        };
        Some(
            (InformationElement { instance, pdn_type, ipv4_address, ipv6_address_and_prefix }, total),
        )
    }
}

impl InformationElementTraits for InformationElement {
    open spec fn encoding(&self) -> Seq<u8> {
        ie_header(79, self.body().len() as int, self.instance) + self.body()
    }

    open spec fn spec_type(&self) -> InformationElementType {
        InformationElementType::PDNAddressAllocation
    }

    open spec fn spec_instance(&self) -> u8 {
        self.instance
    }

    open spec fn with_instance(&self, instance: u8) -> Self {
        InformationElement { instance, ..*self }
    }

    open spec fn wf(&self) -> bool {
        self.instance <= 0xF
    }

    fn information_element_type(&self) -> (r: InformationElementType) {
        InformationElementType::PDNAddressAllocation
    }

    fn instance(&self) -> (r: u8) {
        self.instance
    }

    fn set_instance(&mut self, instance: u8) -> (r: Result<u8, GtpError>) {
        if instance > 0xF {
            Err(GtpError::InstanceTooLarge)
        } else {
            self.instance = instance;
            Ok(instance)
        }
    }

    fn length(&self) -> (r: u16) {
        let mut length: u16 = 4 + 1;
        if self.ipv6_address_and_prefix.is_some() {
            length = length + 17;
        }
        if self.ipv4_address.is_some() {
            length = length + 4;
        }
        length
    }

    fn generate(&self, buffer: &mut Vec<u8>) -> (n: usize) {
        let body_len = self.length() - 4;
        write_ie_header(buffer, 79, body_len, self.instance);
        buffer.push(self.pdn_type.value() % 8);
        let mut pos: usize = 5;
        if let Some((a, prefix)) = &self.ipv6_address_and_prefix {
            buffer.push(*prefix);
            a.generate(buffer);
            pos = pos + 17;
        }
        if let Some(a) = &self.ipv4_address {
            a.generate(buffer);
            pos = pos + 4;
        }
        assert(buffer@ =~= old(buffer)@ + self.encoding());
        pos
    }
}

} // verus!
