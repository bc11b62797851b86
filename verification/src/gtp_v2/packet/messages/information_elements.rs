//! GTPv2 information elements: the typed TLV fields a message carries, and
//! the wire values of the IE type octet.  Every element starts with a
//! four-octet header: type, two-octet big-endian length (which excludes these
//! four octets), and a spare-and-instance octet.

use vstd::prelude::*;

pub mod recovery;
pub mod rat_type;
pub mod f_teid;
pub mod apn;
pub mod bearer_context;
pub mod ebi;
pub mod bearer_qos;
pub mod imsi;
pub mod pdn_type;
pub mod pdn_address_allocation;
pub mod msisdn;
pub mod user_location_information;
pub mod mei;
pub mod serving_network;
pub mod selection_mode;
pub mod apn_restriction;
pub mod ambr;
pub mod ue_time_zone;
pub mod charging_characteristics;
pub mod cause;

use crate::bytes::{be16, val16, write_u16_be, read_u16_be};
use crate::errors::GtpError;

verus! {

/// The wire values of the GTPv2 IE type octet this library supports.
#[derive(Copy, Clone, PartialEq, Eq, Structural, Debug)]
pub enum InformationElementType {
    Recovery,
    RATType,
    FTEID,
    APN,
    BearerContext,
    EBI,
    BearerQoS,
    IMSI,
    PDNType,
    PDNAddressAllocation,
    MSISDN,
    UserLocationInformation,
    MEI,
    ServingNetwork,
    SelectionMode,
    APNRestriction,
    AMBR,
    UETimeZone,
    ChargingCharacteristics,
    Cause,
}

impl InformationElementType {
    /// The type octet this variant stands for.
    pub open spec fn spec_value(self) -> u8 {
        match self {
            InformationElementType::Recovery => 3,
            InformationElementType::RATType => 82,
            InformationElementType::FTEID => 87,
            InformationElementType::APN => 71,
            InformationElementType::BearerContext => 93,
            InformationElementType::EBI => 73,
            InformationElementType::BearerQoS => 80,
            InformationElementType::IMSI => 1,
            InformationElementType::PDNType => 99,
            InformationElementType::PDNAddressAllocation => 79,
            InformationElementType::MSISDN => 76,
            InformationElementType::UserLocationInformation => 86,
            InformationElementType::MEI => 75,
            InformationElementType::ServingNetwork => 83,
            InformationElementType::SelectionMode => 128,
            InformationElementType::APNRestriction => 127,
            InformationElementType::AMBR => 72,
            InformationElementType::UETimeZone => 114,
            InformationElementType::ChargingCharacteristics => 95,
            InformationElementType::Cause => 2,
        }
    }

    /// The variant a type octet stands for, if any.
    pub open spec fn spec_from_u8(v: u8) -> Option<InformationElementType> {
        if v == 3 {
            Some(InformationElementType::Recovery)
        } else if v == 82 {
            Some(InformationElementType::RATType)
        } else if v == 87 {
            Some(InformationElementType::FTEID)
        } else if v == 71 {
            Some(InformationElementType::APN)
        } else if v == 93 {
            Some(InformationElementType::BearerContext)
        } else if v == 73 {
            Some(InformationElementType::EBI)
        } else if v == 80 {
            Some(InformationElementType::BearerQoS)
        } else if v == 1 {
            Some(InformationElementType::IMSI)
        } else if v == 99 {
            Some(InformationElementType::PDNType)
        } else if v == 79 {
            Some(InformationElementType::PDNAddressAllocation)
        } else if v == 76 {
            Some(InformationElementType::MSISDN)
        } else if v == 86 {
            Some(InformationElementType::UserLocationInformation)
        } else if v == 75 {
            Some(InformationElementType::MEI)
        } else if v == 83 {
            Some(InformationElementType::ServingNetwork)
        } else if v == 128 {
            Some(InformationElementType::SelectionMode)
        } else if v == 127 {
            Some(InformationElementType::APNRestriction)
        } else if v == 72 {
            Some(InformationElementType::AMBR)
        } else if v == 114 {
            Some(InformationElementType::UETimeZone)
        } else if v == 95 {
            Some(InformationElementType::ChargingCharacteristics)
        } else if v == 2 {
            Some(InformationElementType::Cause)
        } else {
            None
        }
    }

    pub fn value(&self) -> (r: u8)
        ensures
            r == self.spec_value(),
    {
        match self {
            InformationElementType::Recovery => 3,
            InformationElementType::RATType => 82,
            InformationElementType::FTEID => 87,
            InformationElementType::APN => 71,
            InformationElementType::BearerContext => 93,
            InformationElementType::EBI => 73,
            InformationElementType::BearerQoS => 80,
            InformationElementType::IMSI => 1,
            InformationElementType::PDNType => 99,
            InformationElementType::PDNAddressAllocation => 79,
            InformationElementType::MSISDN => 76,
            InformationElementType::UserLocationInformation => 86,
            InformationElementType::MEI => 75,
            InformationElementType::ServingNetwork => 83,
            InformationElementType::SelectionMode => 128,
            InformationElementType::APNRestriction => 127,
            InformationElementType::AMBR => 72,
            InformationElementType::UETimeZone => 114,
            InformationElementType::ChargingCharacteristics => 95,
            InformationElementType::Cause => 2,
        }
    }

    pub fn try_from_u8(v: u8) -> (r: Option<InformationElementType>)
        ensures
            r == Self::spec_from_u8(v),
    {
        if v == 3 {
            Some(InformationElementType::Recovery)
        } else if v == 82 {
            Some(InformationElementType::RATType)
        } else if v == 87 {
            Some(InformationElementType::FTEID)
        } else if v == 71 {
            Some(InformationElementType::APN)
        } else if v == 93 {
            Some(InformationElementType::BearerContext)
        } else if v == 73 {
            Some(InformationElementType::EBI)
        } else if v == 80 {
            Some(InformationElementType::BearerQoS)
        } else if v == 1 {
            Some(InformationElementType::IMSI)
        } else if v == 99 {
            Some(InformationElementType::PDNType)
        } else if v == 79 {
            Some(InformationElementType::PDNAddressAllocation)
        } else if v == 76 {
            Some(InformationElementType::MSISDN)
        } else if v == 86 {
            Some(InformationElementType::UserLocationInformation)
        } else if v == 75 {
            Some(InformationElementType::MEI)
        } else if v == 83 {
            Some(InformationElementType::ServingNetwork)
        } else if v == 128 {
            Some(InformationElementType::SelectionMode)
        } else if v == 127 {
            Some(InformationElementType::APNRestriction)
        } else if v == 72 {
            Some(InformationElementType::AMBR)
        } else if v == 114 {
            Some(InformationElementType::UETimeZone)
        } else if v == 95 {
            Some(InformationElementType::ChargingCharacteristics)
        } else if v == 2 {
            Some(InformationElementType::Cause)
        } else {
            None
        }
    }
}

/// The four-octet element header: type octet, big-endian body length, and
/// the instance in the low nibble of the spare octet.
pub open spec fn ie_header(t: u8, body_len: int, instance: u8) -> Seq<u8> {
    seq![t] + be16(body_len as u16) + seq![instance]
}

/// Appends the four-octet element header.
pub fn write_ie_header(buffer: &mut Vec<u8>, t: u8, body_len: u16, instance: u8)
    requires
        instance <= 0xF,
    ensures
        final(buffer)@ == old(buffer)@ + ie_header(t, body_len as int, instance),
{
    buffer.push(t);
    write_u16_be(buffer, body_len);
    buffer.push(instance);
    assert(buffer@ =~= old(buffer)@ + ie_header(t, body_len as int, instance));
}

/// Reads the element header at the start of `buffer` and checks the type
/// octet.  It fails exactly on a short buffer, a foreign type octet, or a
/// declared length that overruns the buffer.
pub fn read_ie_header(buffer: &[u8], expected_type: u8) -> (r: Option<(u16, u8, usize)>)
    ensures
        r is Some <==> buffer@.len() >= 4 && buffer@[0] == expected_type && 4 + val16(buffer@, 1)
            <= buffer@.len(),
        r matches Some((length, instance, total)) ==> {
            &&& length == val16(buffer@, 1)
            &&& instance == buffer@[3] % 16
            &&& instance <= 0xF
            &&& total == 4 + length
        },
{
    if buffer.len() < 4 || buffer[0] != expected_type {
        return None;
    }
    let length = read_u16_be(buffer, 1);
    let total = 4 + length as usize;
    if buffer.len() < total {
        return None;
    }
    Some((length, buffer[3] % 16, total))
}

/// Whether the element at the head of `b` is one `InformationElement::parse`
/// accepts: a known type octet whose own decoder accepts the bytes.
pub open spec fn element_ok(b: Seq<u8>) -> bool
    decreases b.len(), 2int,
{
    if b.len() == 0 {
        false
    } else {
        match InformationElementType::spec_from_u8(b[0]) {
            Some(t) => match t {
                InformationElementType::Recovery => recovery::parse_ok(b),
                InformationElementType::RATType => rat_type::parse_ok(b),
                InformationElementType::FTEID => f_teid::parse_ok(b),
                InformationElementType::APN => apn::parse_ok(b),
                InformationElementType::BearerContext => bearer_context::parse_ok(b),
                InformationElementType::EBI => ebi::parse_ok(b),
                InformationElementType::BearerQoS => bearer_qos::parse_ok(b),
                InformationElementType::IMSI => imsi::parse_ok(b),
                InformationElementType::PDNType => pdn_type::parse_ok(b),
                InformationElementType::PDNAddressAllocation => pdn_address_allocation::parse_ok(
                    b,
                ),
                InformationElementType::MSISDN => msisdn::parse_ok(b),
                InformationElementType::UserLocationInformation => user_location_information::parse_ok(
                    b,
                ),
                InformationElementType::MEI => mei::parse_ok(b),
                InformationElementType::ServingNetwork => serving_network::parse_ok(b),
                InformationElementType::SelectionMode => selection_mode::parse_ok(b),
                InformationElementType::APNRestriction => apn_restriction::parse_ok(b),
                InformationElementType::AMBR => ambr::parse_ok(b),
                InformationElementType::UETimeZone => ue_time_zone::parse_ok(b),
                InformationElementType::ChargingCharacteristics => charging_characteristics::parse_ok(
                    b,
                ),
                InformationElementType::Cause => cause::parse_ok(b),
            },
            None => false,
        }
    }
}

/// Whether a scan over `b` runs to the end: each element segment declares a
/// length its bytes can hold, so that parsing or skipping always advances.
pub open spec fn segments_ok(b: Seq<u8>) -> bool
    decreases b.len(), 0int,
{
    if b.len() == 0 {
        true
    } else if b.len() < 3 {
        false
    } else if 4 + val16(b, 1) > b.len() {
        false
    } else {
        segments_ok(b.skip(4 + val16(b, 1)))
    }
}

/// Whether a scan over `b` meets a segment that parses as an element of type
/// octet `t` and, when `i` names one, instance nibble `i`.
pub open spec fn found(b: Seq<u8>, t: u8, i: Option<u8>) -> bool
    decreases b.len(), 3int,
{
    if b.len() < 3 {
        false
    } else if 4 + val16(b, 1) > b.len() {
        false
    } else {
        (element_ok(b) && b[0] == t && (i matches Some(x) ==> b[3] % 16 == x)) || found(
            b.skip(4 + val16(b, 1)),
            t,
            i,
        )
    }
}

/// One scan step: the structural condition and every search shift by the
/// segment's declared size.
pub proof fn lemma_scan_step(s: Seq<u8>)
    requires
        s.len() >= 3,
        4 + val16(s, 1) <= s.len(),
    ensures
        segments_ok(s) == segments_ok(s.skip(4 + val16(s, 1))),
        forall|t: u8, i: Option<u8>| #[trigger]
            found(s, t, i) == ((element_ok(s) && s[0] == t && (i matches Some(x) ==> s[3] % 16
                == x)) || found(s.skip(4 + val16(s, 1)), t, i)),
{
}

/// A non-empty remainder that cannot hold its declared segment fails the
/// scan and holds nothing.
pub proof fn lemma_scan_dead(s: Seq<u8>)
    requires
        s.len() > 0,
        s.len() < 3 || 4 + val16(s, 1) > s.len(),
    ensures
        !segments_ok(s),
        forall|t: u8, i: Option<u8>| !#[trigger] found(s, t, i),
{
}

/// An exhausted remainder passes the scan and holds nothing.
pub proof fn lemma_scan_empty(s: Seq<u8>)
    requires
        s.len() == 0,
    ensures
        segments_ok(s),
        forall|t: u8, i: Option<u8>| !#[trigger] found(s, t, i),
{
}

/// What every GTPv2 information element offers: its type octet, its instance,
/// its total on-wire size (the four header octets included) and its byte
/// image.
pub trait InformationElementTraits: Sized {
    /// The full on-wire image of the element.
    spec fn encoding(&self) -> Seq<u8>;

    /// The element's type.
    spec fn spec_type(&self) -> InformationElementType;

    /// The element's instance nibble.
    spec fn spec_instance(&self) -> u8;

    /// This element with its instance replaced.
    spec fn with_instance(&self, instance: u8) -> Self;

    /// The element's fields are inside the bounds its encoding assumes.
    spec fn wf(&self) -> bool;

    fn information_element_type(&self) -> (r: InformationElementType)
        ensures
            r == self.spec_type(),
    ;

    fn instance(&self) -> (r: u8)
        ensures
            r == self.spec_instance(),
    ;

    fn set_instance(&mut self, instance: u8) -> (r: Result<u8, GtpError>)
        ensures
            instance > 0xF ==> r == Err::<u8, GtpError>(GtpError::InstanceTooLarge) && *final(self)
                == *old(self),
            instance <= 0xF ==> r == Ok::<u8, GtpError>(instance) && *final(self) == old(
                self,
            ).with_instance(instance),
    ;

    fn length(&self) -> (r: u16)
        requires
            self.wf(),
        ensures
            r == self.encoding().len(),
    ;

    fn generate(&self, buffer: &mut Vec<u8>) -> (n: usize)
        requires
            self.wf(),
        ensures
            final(buffer)@ == old(buffer)@ + self.encoding(),
            n == self.encoding().len(),
    ;
}

/// Any of the supported GTPv2 information elements.
pub enum InformationElement {
    Recovery(recovery::InformationElement),
    RATType(rat_type::InformationElement),
    FTEID(f_teid::InformationElement),
    APN(apn::InformationElement),
    BearerContext(bearer_context::InformationElement),
    EBI(ebi::InformationElement),
    BearerQoS(bearer_qos::InformationElement),
    IMSI(imsi::InformationElement),
    PDNType(pdn_type::InformationElement),
    PDNAddressAllocation(pdn_address_allocation::InformationElement),
    MSISDN(msisdn::InformationElement),
    ULI(user_location_information::InformationElement),
    MEI(mei::InformationElement),
    ServingNetwork(serving_network::InformationElement),
    SelectionMode(selection_mode::InformationElement),
    APNRestriction(apn_restriction::InformationElement),
    AMBR(ambr::InformationElement),
    UETimeZone(ue_time_zone::InformationElement),
    ChargingCharacteristics(charging_characteristics::InformationElement),
    Cause(cause::InformationElement),
}

impl InformationElementTraits for InformationElement {
    open spec fn encoding(&self) -> Seq<u8> {
        match self {
            InformationElement::Recovery(ie) => ie.encoding(),
            InformationElement::RATType(ie) => ie.encoding(),
            InformationElement::FTEID(ie) => ie.encoding(),
            InformationElement::APN(ie) => ie.encoding(),
            InformationElement::BearerContext(ie) => ie.encoding(),
            InformationElement::EBI(ie) => ie.encoding(),
            InformationElement::BearerQoS(ie) => ie.encoding(),
            InformationElement::IMSI(ie) => ie.encoding(),
            InformationElement::PDNType(ie) => ie.encoding(),
            InformationElement::PDNAddressAllocation(ie) => ie.encoding(),
            InformationElement::MSISDN(ie) => ie.encoding(),
            InformationElement::ULI(ie) => ie.encoding(),
            InformationElement::MEI(ie) => ie.encoding(),
            InformationElement::ServingNetwork(ie) => ie.encoding(),
            InformationElement::SelectionMode(ie) => ie.encoding(),
            InformationElement::APNRestriction(ie) => ie.encoding(),
            InformationElement::AMBR(ie) => ie.encoding(),
            InformationElement::UETimeZone(ie) => ie.encoding(),
            InformationElement::ChargingCharacteristics(ie) => ie.encoding(),
            InformationElement::Cause(ie) => ie.encoding(),
        }
    }

    open spec fn spec_type(&self) -> InformationElementType {
        match self {
            InformationElement::Recovery(ie) => ie.spec_type(),
            InformationElement::RATType(ie) => ie.spec_type(),
            InformationElement::FTEID(ie) => ie.spec_type(),
            InformationElement::APN(ie) => ie.spec_type(),
            InformationElement::BearerContext(ie) => ie.spec_type(),
            InformationElement::EBI(ie) => ie.spec_type(),
            InformationElement::BearerQoS(ie) => ie.spec_type(),
            InformationElement::IMSI(ie) => ie.spec_type(),
            InformationElement::PDNType(ie) => ie.spec_type(),
            InformationElement::PDNAddressAllocation(ie) => ie.spec_type(),
            InformationElement::MSISDN(ie) => ie.spec_type(),
            InformationElement::ULI(ie) => ie.spec_type(),
            InformationElement::MEI(ie) => ie.spec_type(),
            InformationElement::ServingNetwork(ie) => ie.spec_type(),
            InformationElement::SelectionMode(ie) => ie.spec_type(),
            InformationElement::APNRestriction(ie) => ie.spec_type(),
            InformationElement::AMBR(ie) => ie.spec_type(),
            InformationElement::UETimeZone(ie) => ie.spec_type(),
            InformationElement::ChargingCharacteristics(ie) => ie.spec_type(),
            InformationElement::Cause(ie) => ie.spec_type(),
        }
    }

    open spec fn spec_instance(&self) -> u8 {
        match self {
            InformationElement::Recovery(ie) => ie.spec_instance(),
            InformationElement::RATType(ie) => ie.spec_instance(),
            InformationElement::FTEID(ie) => ie.spec_instance(),
            InformationElement::APN(ie) => ie.spec_instance(),
            InformationElement::BearerContext(ie) => ie.spec_instance(),
            InformationElement::EBI(ie) => ie.spec_instance(),
            InformationElement::BearerQoS(ie) => ie.spec_instance(),
            InformationElement::IMSI(ie) => ie.spec_instance(),
            InformationElement::PDNType(ie) => ie.spec_instance(),
            InformationElement::PDNAddressAllocation(ie) => ie.spec_instance(),
            InformationElement::MSISDN(ie) => ie.spec_instance(),
            InformationElement::ULI(ie) => ie.spec_instance(),
            InformationElement::MEI(ie) => ie.spec_instance(),
            InformationElement::ServingNetwork(ie) => ie.spec_instance(),
            InformationElement::SelectionMode(ie) => ie.spec_instance(),
            InformationElement::APNRestriction(ie) => ie.spec_instance(),
            InformationElement::AMBR(ie) => ie.spec_instance(),
            InformationElement::UETimeZone(ie) => ie.spec_instance(),
            InformationElement::ChargingCharacteristics(ie) => ie.spec_instance(),
            InformationElement::Cause(ie) => ie.spec_instance(),
        }
    }

    open spec fn with_instance(&self, instance: u8) -> Self {
        match self {
            InformationElement::Recovery(ie) => InformationElement::Recovery(ie.with_instance(instance)),
            InformationElement::RATType(ie) => InformationElement::RATType(ie.with_instance(instance)),
            InformationElement::FTEID(ie) => InformationElement::FTEID(ie.with_instance(instance)),
            InformationElement::APN(ie) => InformationElement::APN(ie.with_instance(instance)),
            InformationElement::BearerContext(ie) => InformationElement::BearerContext(ie.with_instance(instance)),
            InformationElement::EBI(ie) => InformationElement::EBI(ie.with_instance(instance)),
            InformationElement::BearerQoS(ie) => InformationElement::BearerQoS(ie.with_instance(instance)),
            InformationElement::IMSI(ie) => InformationElement::IMSI(ie.with_instance(instance)),
            InformationElement::PDNType(ie) => InformationElement::PDNType(ie.with_instance(instance)),
            InformationElement::PDNAddressAllocation(ie) => InformationElement::PDNAddressAllocation(ie.with_instance(instance)),
            InformationElement::MSISDN(ie) => InformationElement::MSISDN(ie.with_instance(instance)),
            InformationElement::ULI(ie) => InformationElement::ULI(ie.with_instance(instance)),
            InformationElement::MEI(ie) => InformationElement::MEI(ie.with_instance(instance)),
            InformationElement::ServingNetwork(ie) => InformationElement::ServingNetwork(ie.with_instance(instance)),
            InformationElement::SelectionMode(ie) => InformationElement::SelectionMode(ie.with_instance(instance)),
            InformationElement::APNRestriction(ie) => InformationElement::APNRestriction(ie.with_instance(instance)),
            InformationElement::AMBR(ie) => InformationElement::AMBR(ie.with_instance(instance)),
            InformationElement::UETimeZone(ie) => InformationElement::UETimeZone(ie.with_instance(instance)),
            InformationElement::ChargingCharacteristics(ie) => InformationElement::ChargingCharacteristics(ie.with_instance(instance)),
            InformationElement::Cause(ie) => InformationElement::Cause(ie.with_instance(instance)),
        }
    }

    open spec fn wf(&self) -> bool {
        match self {
            InformationElement::Recovery(ie) => ie.wf(),
            InformationElement::RATType(ie) => ie.wf(),
            InformationElement::FTEID(ie) => ie.wf(),
            InformationElement::APN(ie) => ie.wf(),
            InformationElement::BearerContext(ie) => ie.wf(),
            InformationElement::EBI(ie) => ie.wf(),
            InformationElement::BearerQoS(ie) => ie.wf(),
            InformationElement::IMSI(ie) => ie.wf(),
            InformationElement::PDNType(ie) => ie.wf(),
            InformationElement::PDNAddressAllocation(ie) => ie.wf(),
            InformationElement::MSISDN(ie) => ie.wf(),
            InformationElement::ULI(ie) => ie.wf(),
            InformationElement::MEI(ie) => ie.wf(),
            InformationElement::ServingNetwork(ie) => ie.wf(),
            InformationElement::SelectionMode(ie) => ie.wf(),
            InformationElement::APNRestriction(ie) => ie.wf(),
            InformationElement::AMBR(ie) => ie.wf(),
            InformationElement::UETimeZone(ie) => ie.wf(),
            InformationElement::ChargingCharacteristics(ie) => ie.wf(),
            InformationElement::Cause(ie) => ie.wf(),
        }
    }

    fn information_element_type(&self) -> (r: InformationElementType) {
        match self {
            InformationElement::Recovery(ie) => ie.information_element_type(),
            InformationElement::RATType(ie) => ie.information_element_type(),
            InformationElement::FTEID(ie) => ie.information_element_type(),
            InformationElement::APN(ie) => ie.information_element_type(),
            InformationElement::BearerContext(ie) => ie.information_element_type(),
            InformationElement::EBI(ie) => ie.information_element_type(),
            InformationElement::BearerQoS(ie) => ie.information_element_type(),
            InformationElement::IMSI(ie) => ie.information_element_type(),
            InformationElement::PDNType(ie) => ie.information_element_type(),
            InformationElement::PDNAddressAllocation(ie) => ie.information_element_type(),
            InformationElement::MSISDN(ie) => ie.information_element_type(),
            InformationElement::ULI(ie) => ie.information_element_type(),
            InformationElement::MEI(ie) => ie.information_element_type(),
            InformationElement::ServingNetwork(ie) => ie.information_element_type(),
            InformationElement::SelectionMode(ie) => ie.information_element_type(),
            InformationElement::APNRestriction(ie) => ie.information_element_type(),
            InformationElement::AMBR(ie) => ie.information_element_type(),
            InformationElement::UETimeZone(ie) => ie.information_element_type(),
            InformationElement::ChargingCharacteristics(ie) => ie.information_element_type(),
            InformationElement::Cause(ie) => ie.information_element_type(),
        }
    }

    fn instance(&self) -> (r: u8) {
        match self {
            InformationElement::Recovery(ie) => ie.instance(),
            InformationElement::RATType(ie) => ie.instance(),
            InformationElement::FTEID(ie) => ie.instance(),
            InformationElement::APN(ie) => ie.instance(),
            InformationElement::BearerContext(ie) => ie.instance(),
            InformationElement::EBI(ie) => ie.instance(),
            InformationElement::BearerQoS(ie) => ie.instance(),
            InformationElement::IMSI(ie) => ie.instance(),
            InformationElement::PDNType(ie) => ie.instance(),
            InformationElement::PDNAddressAllocation(ie) => ie.instance(),
            InformationElement::MSISDN(ie) => ie.instance(),
            InformationElement::ULI(ie) => ie.instance(),
            InformationElement::MEI(ie) => ie.instance(),
            InformationElement::ServingNetwork(ie) => ie.instance(),
            InformationElement::SelectionMode(ie) => ie.instance(),
            InformationElement::APNRestriction(ie) => ie.instance(),
            InformationElement::AMBR(ie) => ie.instance(),
            InformationElement::UETimeZone(ie) => ie.instance(),
            InformationElement::ChargingCharacteristics(ie) => ie.instance(),
            InformationElement::Cause(ie) => ie.instance(),
        }
    }

    fn set_instance(&mut self, instance: u8) -> (r: Result<u8, GtpError>) {
        match self {
            InformationElement::Recovery(ie) => ie.set_instance(instance),
            InformationElement::RATType(ie) => ie.set_instance(instance),
            InformationElement::FTEID(ie) => ie.set_instance(instance),
            InformationElement::APN(ie) => ie.set_instance(instance),
            InformationElement::BearerContext(ie) => ie.set_instance(instance),
            InformationElement::EBI(ie) => ie.set_instance(instance),
            InformationElement::BearerQoS(ie) => ie.set_instance(instance),
            InformationElement::IMSI(ie) => ie.set_instance(instance),
            InformationElement::PDNType(ie) => ie.set_instance(instance),
            InformationElement::PDNAddressAllocation(ie) => ie.set_instance(instance),
            InformationElement::MSISDN(ie) => ie.set_instance(instance),
            InformationElement::ULI(ie) => ie.set_instance(instance),
            InformationElement::MEI(ie) => ie.set_instance(instance),
            InformationElement::ServingNetwork(ie) => ie.set_instance(instance),
            InformationElement::SelectionMode(ie) => ie.set_instance(instance),
            InformationElement::APNRestriction(ie) => ie.set_instance(instance),
            InformationElement::AMBR(ie) => ie.set_instance(instance),
            InformationElement::UETimeZone(ie) => ie.set_instance(instance),
            InformationElement::ChargingCharacteristics(ie) => ie.set_instance(instance),
            InformationElement::Cause(ie) => ie.set_instance(instance),
        }
    }

    fn length(&self) -> (r: u16) {
        match self {
            InformationElement::Recovery(ie) => ie.length(),
            InformationElement::RATType(ie) => ie.length(),
            InformationElement::FTEID(ie) => ie.length(),
            InformationElement::APN(ie) => ie.length(),
            InformationElement::BearerContext(ie) => ie.length(),
            InformationElement::EBI(ie) => ie.length(),
            InformationElement::BearerQoS(ie) => ie.length(),
            InformationElement::IMSI(ie) => ie.length(),
            InformationElement::PDNType(ie) => ie.length(),
            InformationElement::PDNAddressAllocation(ie) => ie.length(),
            InformationElement::MSISDN(ie) => ie.length(),
            InformationElement::ULI(ie) => ie.length(),
            InformationElement::MEI(ie) => ie.length(),
            InformationElement::ServingNetwork(ie) => ie.length(),
            InformationElement::SelectionMode(ie) => ie.length(),
            InformationElement::APNRestriction(ie) => ie.length(),
            InformationElement::AMBR(ie) => ie.length(),
            InformationElement::UETimeZone(ie) => ie.length(),
            InformationElement::ChargingCharacteristics(ie) => ie.length(),
            InformationElement::Cause(ie) => ie.length(),
        }
    }

    fn generate(&self, buffer: &mut Vec<u8>) -> (n: usize) {
        match self {
            InformationElement::Recovery(ie) => ie.generate(buffer),
            InformationElement::RATType(ie) => ie.generate(buffer),
            InformationElement::FTEID(ie) => ie.generate(buffer),
            InformationElement::APN(ie) => ie.generate(buffer),
            InformationElement::BearerContext(ie) => ie.generate(buffer),
            InformationElement::EBI(ie) => ie.generate(buffer),
            InformationElement::BearerQoS(ie) => ie.generate(buffer),
            InformationElement::IMSI(ie) => ie.generate(buffer),
            InformationElement::PDNType(ie) => ie.generate(buffer),
            InformationElement::PDNAddressAllocation(ie) => ie.generate(buffer),
            InformationElement::MSISDN(ie) => ie.generate(buffer),
            InformationElement::ULI(ie) => ie.generate(buffer),
            InformationElement::MEI(ie) => ie.generate(buffer),
            InformationElement::ServingNetwork(ie) => ie.generate(buffer),
            InformationElement::SelectionMode(ie) => ie.generate(buffer),
            InformationElement::APNRestriction(ie) => ie.generate(buffer),
            InformationElement::AMBR(ie) => ie.generate(buffer),
            InformationElement::UETimeZone(ie) => ie.generate(buffer),
            InformationElement::ChargingCharacteristics(ie) => ie.generate(buffer),
            InformationElement::Cause(ie) => ie.generate(buffer),
        }
    }
}

impl InformationElement {
    /// Reads one element, dispatching on the type octet.  It fails exactly on
    /// an unknown type octet or on an element its own decoder refuses; the
    /// containing message then skips the element by its declared length.
    pub fn parse(buffer: &[u8]) -> (r: Option<(Self, usize)>)
        ensures
            r is Some <==> element_ok(buffer@),
            r matches Some((ie, n)) ==> ie.wf() && 4 <= n <= buffer@.len() && ie.encoding().len()
                <= n && n == 4 + val16(buffer@, 1),
            r matches Some((ie, n)) ==> Some(ie.spec_type())
                == InformationElementType::spec_from_u8(buffer@[0]) && ie.spec_instance()
                == buffer@[3] % 16,
        decreases buffer@.len(), 1int,
    {
        if buffer.len() == 0 {
            return None;
        }
        match InformationElementType::try_from_u8(buffer[0]) {
            Some(InformationElementType::Recovery) => {
                match recovery::InformationElement::parse(buffer) {
                    Some((ie, n)) => Some((InformationElement::Recovery(ie), n)),
                    None => None,
                }
            },
            Some(InformationElementType::RATType) => {
                match rat_type::InformationElement::parse(buffer) {
                    Some((ie, n)) => Some((InformationElement::RATType(ie), n)),
                    None => None,
                }
            },
            Some(InformationElementType::FTEID) => {
                match f_teid::InformationElement::parse(buffer) {
                    Some((ie, n)) => Some((InformationElement::FTEID(ie), n)),
                    None => None,
                }
            },
            Some(InformationElementType::APN) => {
                match apn::InformationElement::parse(buffer) {
                    Some((ie, n)) => Some((InformationElement::APN(ie), n)),
                    None => None,
                }
            },
            Some(InformationElementType::BearerContext) => {
                match bearer_context::InformationElement::parse(buffer) {
                    Some((ie, n)) => Some((InformationElement::BearerContext(ie), n)),
                    None => None,
                }
            },
            Some(InformationElementType::EBI) => {
                match ebi::InformationElement::parse(buffer) {
                    Some((ie, n)) => Some((InformationElement::EBI(ie), n)),
                    None => None,
                }
            },
            Some(InformationElementType::BearerQoS) => {
                match bearer_qos::InformationElement::parse(buffer) {
                    Some((ie, n)) => Some((InformationElement::BearerQoS(ie), n)),
                    None => None,
                }
            },
            Some(InformationElementType::IMSI) => {
                match imsi::InformationElement::parse(buffer) {
                    Some((ie, n)) => Some((InformationElement::IMSI(ie), n)),
                    None => None,
                }
            },
            Some(InformationElementType::PDNType) => {
                match pdn_type::InformationElement::parse(buffer) {
                    Some((ie, n)) => Some((InformationElement::PDNType(ie), n)),
                    None => None,
                }
            },
            Some(InformationElementType::PDNAddressAllocation) => {
                match pdn_address_allocation::InformationElement::parse(buffer) {
                    Some((ie, n)) => Some((InformationElement::PDNAddressAllocation(ie), n)),
                    None => None,
                }
            },
            Some(InformationElementType::MSISDN) => {
                match msisdn::InformationElement::parse(buffer) {
                    Some((ie, n)) => Some((InformationElement::MSISDN(ie), n)),
                    None => None,
                }
            },
            Some(InformationElementType::UserLocationInformation) => {
                match user_location_information::InformationElement::parse(buffer) {
                    Some((ie, n)) => Some((InformationElement::ULI(ie), n)),
                    None => None,
                }
            },
            Some(InformationElementType::MEI) => {
                match mei::InformationElement::parse(buffer) {
                    Some((ie, n)) => Some((InformationElement::MEI(ie), n)),
                    None => None,
                }
            },
            Some(InformationElementType::ServingNetwork) => {
                match serving_network::InformationElement::parse(buffer) {
                    Some((ie, n)) => Some((InformationElement::ServingNetwork(ie), n)),
                    None => None,
                }
            },
            Some(InformationElementType::SelectionMode) => {
                match selection_mode::InformationElement::parse(buffer) {
                    Some((ie, n)) => Some((InformationElement::SelectionMode(ie), n)),
                    None => None,
                }
            },
            Some(InformationElementType::APNRestriction) => {
                match apn_restriction::InformationElement::parse(buffer) {
                    Some((ie, n)) => Some((InformationElement::APNRestriction(ie), n)),
                    None => None,
                }
            },
            Some(InformationElementType::AMBR) => {
                match ambr::InformationElement::parse(buffer) {
                    Some((ie, n)) => Some((InformationElement::AMBR(ie), n)),
                    None => None,
                }
            },
            Some(InformationElementType::UETimeZone) => {
                match ue_time_zone::InformationElement::parse(buffer) {
                    Some((ie, n)) => Some((InformationElement::UETimeZone(ie), n)),
                    None => None,
                }
            },
            Some(InformationElementType::ChargingCharacteristics) => {
                match charging_characteristics::InformationElement::parse(buffer) {
                    Some((ie, n)) => Some((InformationElement::ChargingCharacteristics(ie), n)),
                    None => None,
                }
            },
            Some(InformationElementType::Cause) => {
                match cause::InformationElement::parse(buffer) {
                    Some((ie, n)) => Some((InformationElement::Cause(ie), n)),
                    None => None,
                }
            },
            None => None,
        }
    }

    /// The number of octets to advance past an element that could not be
    /// parsed: the four header octets plus the declared body length.
    pub fn skip_parsing(buffer: &[u8]) -> (r: usize)
        requires
            buffer@.len() >= 3,
        ensures
            r == 4 + val16(buffer@, 1),
    {
        let length = read_u16_be(buffer, 1);
        4 + length as usize
    }
}

/// The image of an optional element: its encoding if present, nothing if
/// not.
pub open spec fn opt_enc<T: InformationElementTraits>(v: Option<T>) -> Seq<u8> {
    match v {
        Some(x) => x.encoding(),
        None => Seq::empty(),
    }
}

/// An optional element that is present is sound.
pub open spec fn opt_wf<T: InformationElementTraits>(v: Option<T>) -> bool {
    match v {
        Some(x) => x.wf(),
        None => true,
    }
}

} // verus!