//! Fully Qualified TEID information element: a flags-and-interface octet
//! (V4 and V6 presence bits over a six-bit interface type), the four-octet
//! TEID, then the IPv4 and IPv6 addresses the flags announce.

use vstd::prelude::*;

use crate::bytes::{be32, val16, val32, write_u32_be, read_u32_be};
use crate::errors::GtpError;
use crate::net::{Ipv4Address, Ipv6Address};

use super::{
    InformationElementTraits,
    InformationElementType,
    ie_header,
    write_ie_header,
    read_ie_header,
};

verus! {

/// The interface a fully qualified TEID belongs to, a closed catalog of
/// six-bit wire values.
#[derive(Copy, Clone, PartialEq, Eq, Structural, Debug)]
pub enum InterfaceType {
    S1UENodeBGtpU,
    S1USgwGtpU,
    S12RncGtpU,
    S12SgwGtpU,
    S5S8SgwGtpU,
    S5S8PgwGtpU,
    S5S8SgwGtpC,
    S5S8PgwGtpC,
    S5S8SgwPmipV6,
    S5S8PgwPmipV6,
    S11MmeGtpC,
    S11S4SgwGtpC,
    S10N26MmeGtpC,
    S3MmeGtpC,
    S3SgsnGtpC,
    S4SgsnGtpU,
    S4SgwGtpU,
    S4SgsnGtpC,
    S16SgsnGtpC,
    ENodeBGtpUForDlDataForwarding,
    ENodeBGtpUForUlDataForwarding,
    RncGtpUForDataForwarding,
    SgsnGtpUForDataForwarding,
    SgwUpfGtpUForDlDataForwarding,
    SmMbmsGwGtpC,
    SnMbmsGwGtpC,
    SmMmeGtpC,
    SnSgsnGtpC,
    SgwGtpUForUlDataForwarding,
    SnSgsnGtpU,
    S2bEPdgGtpC,
    S2bUEPdgGtpU,
    S2bPgwGtpC,
    S2bUPgwGtpU,
    S2aTwanGtpU,
    S2aTwanGtpC,
    S2aPgwGtpC,
    S2aPgwGtpU,
    S11MmeGtpU,
    S11SgwGtpU,
    N26AmfGtpC,
}

impl InterfaceType {
    /// The wire value this variant stands for.
    pub open spec fn spec_value(self) -> u8 {
        match self {
            InterfaceType::S1UENodeBGtpU => 0,
            InterfaceType::S1USgwGtpU => 1,
            InterfaceType::S12RncGtpU => 2,
            InterfaceType::S12SgwGtpU => 3,
            InterfaceType::S5S8SgwGtpU => 4,
            InterfaceType::S5S8PgwGtpU => 5,
            InterfaceType::S5S8SgwGtpC => 6,
            InterfaceType::S5S8PgwGtpC => 7,
            InterfaceType::S5S8SgwPmipV6 => 8,
            InterfaceType::S5S8PgwPmipV6 => 9,
            InterfaceType::S11MmeGtpC => 10,
            InterfaceType::S11S4SgwGtpC => 11,
            InterfaceType::S10N26MmeGtpC => 12,
            InterfaceType::S3MmeGtpC => 13,
            InterfaceType::S3SgsnGtpC => 14,
            InterfaceType::S4SgsnGtpU => 15,
            InterfaceType::S4SgwGtpU => 16,
            InterfaceType::S4SgsnGtpC => 17,
            InterfaceType::S16SgsnGtpC => 18,
            InterfaceType::ENodeBGtpUForDlDataForwarding => 19,
            InterfaceType::ENodeBGtpUForUlDataForwarding => 20,
            InterfaceType::RncGtpUForDataForwarding => 21,
            InterfaceType::SgsnGtpUForDataForwarding => 22,
            InterfaceType::SgwUpfGtpUForDlDataForwarding => 23,
            InterfaceType::SmMbmsGwGtpC => 24,
            InterfaceType::SnMbmsGwGtpC => 25,
            InterfaceType::SmMmeGtpC => 26,
            InterfaceType::SnSgsnGtpC => 27,
            InterfaceType::SgwGtpUForUlDataForwarding => 28,
            InterfaceType::SnSgsnGtpU => 29,
            InterfaceType::S2bEPdgGtpC => 30,
            InterfaceType::S2bUEPdgGtpU => 31,
            InterfaceType::S2bPgwGtpC => 32,
            InterfaceType::S2bUPgwGtpU => 33,
            InterfaceType::S2aTwanGtpU => 34,
            InterfaceType::S2aTwanGtpC => 35,
            InterfaceType::S2aPgwGtpC => 36,
            InterfaceType::S2aPgwGtpU => 37,
            InterfaceType::S11MmeGtpU => 38,
            InterfaceType::S11SgwGtpU => 39,
            InterfaceType::N26AmfGtpC => 40,
        }
    }

    /// The variant a wire value stands for, if any.
    pub open spec fn spec_from_u8(v: u8) -> Option<InterfaceType> {
        if v == 0 {
            Some(InterfaceType::S1UENodeBGtpU)
        } else if v == 1 {
            Some(InterfaceType::S1USgwGtpU)
        } else if v == 2 {
            Some(InterfaceType::S12RncGtpU)
        } else if v == 3 {
            Some(InterfaceType::S12SgwGtpU)
        } else if v == 4 {
            Some(InterfaceType::S5S8SgwGtpU)
        } else if v == 5 {
            Some(InterfaceType::S5S8PgwGtpU)
        } else if v == 6 {
            Some(InterfaceType::S5S8SgwGtpC)
        } else if v == 7 {
            Some(InterfaceType::S5S8PgwGtpC)
        } else if v == 8 {
            Some(InterfaceType::S5S8SgwPmipV6)
        } else if v == 9 {
            Some(InterfaceType::S5S8PgwPmipV6)
        } else if v == 10 {
            Some(InterfaceType::S11MmeGtpC)
        } else if v == 11 {
            Some(InterfaceType::S11S4SgwGtpC)
        } else if v == 12 {
            Some(InterfaceType::S10N26MmeGtpC)
        } else if v == 13 {
            Some(InterfaceType::S3MmeGtpC)
        } else if v == 14 {
            Some(InterfaceType::S3SgsnGtpC)
        } else if v == 15 {
            Some(InterfaceType::S4SgsnGtpU)
        } else if v == 16 {
            Some(InterfaceType::S4SgwGtpU)
        } else if v == 17 {
            Some(InterfaceType::S4SgsnGtpC)
        } else if v == 18 {
            Some(InterfaceType::S16SgsnGtpC)
        } else if v == 19 {
            Some(InterfaceType::ENodeBGtpUForDlDataForwarding)
        } else if v == 20 {
            Some(InterfaceType::ENodeBGtpUForUlDataForwarding)
        } else if v == 21 {
            Some(InterfaceType::RncGtpUForDataForwarding)
        } else if v == 22 {
            Some(InterfaceType::SgsnGtpUForDataForwarding)
        } else if v == 23 {
            Some(InterfaceType::SgwUpfGtpUForDlDataForwarding)
        } else if v == 24 {
            Some(InterfaceType::SmMbmsGwGtpC)
        } else if v == 25 {
            Some(InterfaceType::SnMbmsGwGtpC)
        } else if v == 26 {
            Some(InterfaceType::SmMmeGtpC)
        } else if v == 27 {
            Some(InterfaceType::SnSgsnGtpC)
        } else if v == 28 {
            Some(InterfaceType::SgwGtpUForUlDataForwarding)
        } else if v == 29 {
            Some(InterfaceType::SnSgsnGtpU)
        } else if v == 30 {
            Some(InterfaceType::S2bEPdgGtpC)
        } else if v == 31 {
            Some(InterfaceType::S2bUEPdgGtpU)
        } else if v == 32 {
            Some(InterfaceType::S2bPgwGtpC)
        } else if v == 33 {
            Some(InterfaceType::S2bUPgwGtpU)
        } else if v == 34 {
            Some(InterfaceType::S2aTwanGtpU)
        } else if v == 35 {
            Some(InterfaceType::S2aTwanGtpC)
        } else if v == 36 {
            Some(InterfaceType::S2aPgwGtpC)
        } else if v == 37 {
            Some(InterfaceType::S2aPgwGtpU)
        } else if v == 38 {
            Some(InterfaceType::S11MmeGtpU)
        } else if v == 39 {
            Some(InterfaceType::S11SgwGtpU)
        } else if v == 40 {
            Some(InterfaceType::N26AmfGtpC)
        } else {
            None
        }
    }

    pub fn value(&self) -> (r: u8)
        ensures
            r == self.spec_value(),
            r <= 63,
    {
        match self {
            InterfaceType::S1UENodeBGtpU => 0,
            InterfaceType::S1USgwGtpU => 1,
            InterfaceType::S12RncGtpU => 2,
            InterfaceType::S12SgwGtpU => 3,
            InterfaceType::S5S8SgwGtpU => 4,
            InterfaceType::S5S8PgwGtpU => 5,
            InterfaceType::S5S8SgwGtpC => 6,
            InterfaceType::S5S8PgwGtpC => 7,
            InterfaceType::S5S8SgwPmipV6 => 8,
            InterfaceType::S5S8PgwPmipV6 => 9,
            InterfaceType::S11MmeGtpC => 10,
            InterfaceType::S11S4SgwGtpC => 11,
            InterfaceType::S10N26MmeGtpC => 12,
            InterfaceType::S3MmeGtpC => 13,
            InterfaceType::S3SgsnGtpC => 14,
            InterfaceType::S4SgsnGtpU => 15,
            InterfaceType::S4SgwGtpU => 16,
            InterfaceType::S4SgsnGtpC => 17,
            InterfaceType::S16SgsnGtpC => 18,
            InterfaceType::ENodeBGtpUForDlDataForwarding => 19,
            InterfaceType::ENodeBGtpUForUlDataForwarding => 20,
            InterfaceType::RncGtpUForDataForwarding => 21,
            InterfaceType::SgsnGtpUForDataForwarding => 22,
            InterfaceType::SgwUpfGtpUForDlDataForwarding => 23,
            InterfaceType::SmMbmsGwGtpC => 24,
            InterfaceType::SnMbmsGwGtpC => 25,
            InterfaceType::SmMmeGtpC => 26,
            InterfaceType::SnSgsnGtpC => 27,
            InterfaceType::SgwGtpUForUlDataForwarding => 28,
            InterfaceType::SnSgsnGtpU => 29,
            InterfaceType::S2bEPdgGtpC => 30,
            InterfaceType::S2bUEPdgGtpU => 31,
            InterfaceType::S2bPgwGtpC => 32,
            InterfaceType::S2bUPgwGtpU => 33,
            InterfaceType::S2aTwanGtpU => 34,
            InterfaceType::S2aTwanGtpC => 35,
            InterfaceType::S2aPgwGtpC => 36,
            InterfaceType::S2aPgwGtpU => 37,
            InterfaceType::S11MmeGtpU => 38,
            InterfaceType::S11SgwGtpU => 39,
            InterfaceType::N26AmfGtpC => 40,
        }
    }

    pub fn try_from_u8(v: u8) -> (r: Option<InterfaceType>)
        ensures
            r == Self::spec_from_u8(v),
    {
        if v == 0 {
            Some(InterfaceType::S1UENodeBGtpU)
        } else if v == 1 {
            Some(InterfaceType::S1USgwGtpU)
        } else if v == 2 {
            Some(InterfaceType::S12RncGtpU)
        } else if v == 3 {
            Some(InterfaceType::S12SgwGtpU)
        } else if v == 4 {
            Some(InterfaceType::S5S8SgwGtpU)
        } else if v == 5 {
            Some(InterfaceType::S5S8PgwGtpU)
        } else if v == 6 {
            Some(InterfaceType::S5S8SgwGtpC)
        } else if v == 7 {
            Some(InterfaceType::S5S8PgwGtpC)
        } else if v == 8 {
            Some(InterfaceType::S5S8SgwPmipV6)
        } else if v == 9 {
            Some(InterfaceType::S5S8PgwPmipV6)
        } else if v == 10 {
            Some(InterfaceType::S11MmeGtpC)
        } else if v == 11 {
            Some(InterfaceType::S11S4SgwGtpC)
        } else if v == 12 {
            Some(InterfaceType::S10N26MmeGtpC)
        } else if v == 13 {
            Some(InterfaceType::S3MmeGtpC)
        } else if v == 14 {
            Some(InterfaceType::S3SgsnGtpC)
        } else if v == 15 {
            Some(InterfaceType::S4SgsnGtpU)
        } else if v == 16 {
            Some(InterfaceType::S4SgwGtpU)
        } else if v == 17 {
            Some(InterfaceType::S4SgsnGtpC)
        } else if v == 18 {
            Some(InterfaceType::S16SgsnGtpC)
        } else if v == 19 {
            Some(InterfaceType::ENodeBGtpUForDlDataForwarding)
        } else if v == 20 {
            Some(InterfaceType::ENodeBGtpUForUlDataForwarding)
        } else if v == 21 {
            Some(InterfaceType::RncGtpUForDataForwarding)
        } else if v == 22 {
            Some(InterfaceType::SgsnGtpUForDataForwarding)
        } else if v == 23 {
            Some(InterfaceType::SgwUpfGtpUForDlDataForwarding)
        } else if v == 24 {
            Some(InterfaceType::SmMbmsGwGtpC)
        } else if v == 25 {
            Some(InterfaceType::SnMbmsGwGtpC)
        } else if v == 26 {
            Some(InterfaceType::SmMmeGtpC)
        } else if v == 27 {
            Some(InterfaceType::SnSgsnGtpC)
        } else if v == 28 {
            Some(InterfaceType::SgwGtpUForUlDataForwarding)
        } else if v == 29 {
            Some(InterfaceType::SnSgsnGtpU)
        } else if v == 30 {
            Some(InterfaceType::S2bEPdgGtpC)
        } else if v == 31 {
            Some(InterfaceType::S2bUEPdgGtpU)
        } else if v == 32 {
            Some(InterfaceType::S2bPgwGtpC)
        } else if v == 33 {
            Some(InterfaceType::S2bUPgwGtpU)
        } else if v == 34 {
            Some(InterfaceType::S2aTwanGtpU)
        } else if v == 35 {
            Some(InterfaceType::S2aTwanGtpC)
        } else if v == 36 {
            Some(InterfaceType::S2aPgwGtpC)
        } else if v == 37 {
            Some(InterfaceType::S2aPgwGtpU)
        } else if v == 38 {
            Some(InterfaceType::S11MmeGtpU)
        } else if v == 39 {
            Some(InterfaceType::S11SgwGtpU)
        } else if v == 40 {
            Some(InterfaceType::N26AmfGtpC)
        } else {
            None
        }
    }
}

/// The inputs `parse` accepts: the element header is satisfied, the
/// interface type is in the catalog, and the declared body holds the flags,
/// the TEID and every address the flag bits announce.
pub open spec fn parse_ok(b: Seq<u8>) -> bool {
    &&& b.len() >= 4
    &&& b[0] == 87
    &&& 4 + val16(b, 1) <= b.len()
    &&& val16(b, 1) >= 5
    &&& InterfaceType::spec_from_u8((b[4] % 64) as u8) is Some
    &&& (b[4] / 128 == 1 ==> val16(b, 1) >= 9)
    &&& ((b[4] / 64) % 2 == 1 ==> val16(b, 1) >= 5 + (if b[4] / 128 == 1 {
        4int
    } else {
        0int
    }) + 16)
}

/// F-TEID information element.
pub struct InformationElement {
    /// At most 0xF.
    pub instance: u8,
    pub interface_type: InterfaceType,
    pub teid: u32,
    pub ipv4_address: Option<Ipv4Address>,
    pub ipv6_address: Option<Ipv6Address>,
}

/// The image of an optional address: its octets if present, nothing if not.
pub open spec fn opt_v4(a: Option<Ipv4Address>) -> Seq<u8> {
    match a {
        Some(v) => v.encoding(),
        None => Seq::empty(),
    }
}

/// The image of an optional address: its octets if present, nothing if not.
pub open spec fn opt_v6(a: Option<Ipv6Address>) -> Seq<u8> {
    match a {
        Some(v) => v.encoding(),
        None => Seq::empty(),
    }
}

impl InformationElement {
    /// The flags-and-interface octet: V4 in the top bit, V6 below it, the
    /// interface type in the low six bits.
    pub closed spec fn flags_octet(&self) -> u8 {
        ((if self.ipv4_address is Some {
            128int
        } else {
            0int
        }) + (if self.ipv6_address is Some {
            64int
        } else {
            0int
        }) + self.interface_type.spec_value()) as u8
    }

    /// The body: flags, TEID, then the announced addresses.
    pub closed spec fn body(&self) -> Seq<u8> {
        seq![self.flags_octet()] + be32(self.teid) + opt_v4(self.ipv4_address) + opt_v6(
            self.ipv6_address,
        )
    }

    pub fn new(
        interface_type: InterfaceType,
        teid: u32,
        ipv4_address: Option<Ipv4Address>,
        ipv6_address: Option<Ipv6Address>,
        instance: u8,
    ) -> (r: Result<Self, GtpError>)
        ensures
            instance > 0xF ==> r == Err::<Self, GtpError>(GtpError::InstanceTooLarge),
            instance <= 0xF ==> (r matches Ok(ie) && ie == (InformationElement {
                instance,
                interface_type,
                teid,
                ipv4_address,
                ipv6_address,
            })),
    {
        if instance > 0xF {
            return Err(GtpError::InstanceTooLarge);
        }
        Ok(InformationElement { instance, interface_type, teid, ipv4_address, ipv6_address })
    }

    /// As `new`, with a TEID drawn at random.
    pub fn new_rand(
        interface_type: InterfaceType,
        ipv4_address: Option<Ipv4Address>,
        ipv6_address: Option<Ipv6Address>,
        instance: u8,
    ) -> (r: Result<Self, GtpError>)
        ensures
            instance > 0xF ==> r == Err::<Self, GtpError>(GtpError::InstanceTooLarge),
            instance <= 0xF ==> (r matches Ok(ie) && ie.instance == instance && ie.interface_type
                == interface_type && ie.ipv4_address == ipv4_address && ie.ipv6_address
                == ipv6_address),
    {
        let random_teid = random_u32();
        Self::new(interface_type, random_teid, ipv4_address, ipv6_address, instance)
    }

    /// Reads one element.  It fails exactly on a header the buffer cannot
    /// satisfy, a declared length that undercuts the announced body, or an
    /// interface type outside the catalog.
    pub fn parse(buffer: &[u8]) -> (r: Option<(Self, usize)>)
        ensures
            r is Some <==> parse_ok(buffer@),
            r matches Some((ie, n)) ==> {
                &&& buffer@.len() >= 9
                &&& buffer@[0] == 87
                &&& n == 4 + val16(buffer@, 1)
                &&& n <= buffer@.len()
                &&& ie.wf()
                &&& ie.encoding().len() <= n
                &&& ie.instance == buffer@[3] % 16
                &&& (ie.ipv4_address is Some <==> buffer@[4] / 128 == 1)
                &&& (ie.ipv6_address is Some <==> (buffer@[4] / 64) % 2 == 1)
                &&& Some(ie.interface_type) == InterfaceType::spec_from_u8((buffer@[4] % 64) as u8)
                &&& ie.teid == val32(buffer@, 5)
            },
    {
        let (length, instance, total) = match read_ie_header(buffer, 87) {
            Some(h) => h,
            None => { return None },
        };
        if length < 5 {
            return None;
        }
        let flags = buffer[4];
        let v4 = flags / 128;
        let v6 = (flags / 64) % 2;
        let interface_type = match InterfaceType::try_from_u8(flags % 64) {
            Some(t) => t,
            None => { return None },
        };
        let teid = read_u32_be(buffer, 5);
        let mut pos: usize = 9;
        let ipv4_address: Option<Ipv4Address> = if v4 == 1 {
            if length < 9 {
                return None;
            }
            let a = Ipv4Address::parse(buffer, pos);
            pos = pos + 4;
            Some(a)
        } else {
            None
        };
        let ipv6_address: Option<Ipv6Address> = if v6 == 1 {
            if pos + 16 > total {
                return None;
            }
            let a = Ipv6Address::parse(buffer, pos);
            pos = pos + 16;
            Some(a)
        } else {
            None
        };
        Some((InformationElement { instance, interface_type, teid, ipv4_address, ipv6_address }, total))
    }
}

/// Relies on rand::random: some unsigned value; nothing is promised of it.
#[verifier::external_body]
fn random_u32() -> u32 {
    rand::random::<u32>()
}

impl InformationElement {
    /// The element's image is nine octets, plus four per IPv4 address and
    /// sixteen per IPv6 address present.
    pub proof fn lemma_encoding_len(&self)
        ensures
            self.encoding().len() == 9 + (if self.ipv4_address is Some {
                4int
            } else {
                0int
            }) + (if self.ipv6_address is Some {
                16int
            } else {
                0int
            }),
            self.encoding().len() <= 29,
    {
    }
}

impl InformationElementTraits for InformationElement {
    open spec fn encoding(&self) -> Seq<u8> {
        ie_header(87, self.body().len() as int, self.instance) + self.body()
    }

    open spec fn spec_type(&self) -> InformationElementType {
        InformationElementType::FTEID
    }

    open spec fn spec_instance(&self) -> u8 {
        self.instance
    }

    open spec fn with_instance(&self, instance: u8) -> Self {
        InformationElement { instance, ..*self }
    }

    open spec fn wf(&self) -> bool {
        self.instance <= 0xF
    }

    fn information_element_type(&self) -> (r: InformationElementType) {
        InformationElementType::FTEID
    }

    fn instance(&self) -> (r: u8) {
        self.instance
    }

    fn set_instance(&mut self, instance: u8) -> (r: Result<u8, GtpError>) {
        if instance > 0xF {
            Err(GtpError::InstanceTooLarge)
        } else {
            self.instance = instance;
            Ok(instance)
        }
    }

    fn length(&self) -> (r: u16) {
        let mut length: u16 = 4 + 1 + 4;
        if self.ipv4_address.is_some() {
            length = length + 4;
        }
        if self.ipv6_address.is_some() {
            length = length + 16;
        }
        length
    }

    fn generate(&self, buffer: &mut Vec<u8>) -> (n: usize) {
        let body_len = self.length() - 4;
        write_ie_header(buffer, 87, body_len, self.instance);
        let mut flags: u8 = self.interface_type.value();
        if self.ipv4_address.is_some() {
            flags = flags + 128;
        }
        if self.ipv6_address.is_some() {
            flags = flags + 64;
        }
        buffer.push(flags);
        write_u32_be(buffer, self.teid);
        let mut pos: usize = 9;
        if let Some(a) = &self.ipv4_address {
            pos = pos + a.generate(buffer);
        }
        if let Some(a) = &self.ipv6_address {
            pos = pos + a.generate(buffer);
        }
        assert(buffer@ =~= old(buffer)@ + self.encoding());
        pos
    }
}

} // verus!
