//! GTPv1 information elements: the typed fields a control-plane message
//! carries, and the wire values of the IE type octet.

use vstd::prelude::*;

pub mod imsi;
pub mod teid_data_i;
pub mod nsapi;
pub mod gsn_address;
pub mod qos_profile;

verus! {

/// The wire values of the GTPv1 IE type octet this library supports.
#[derive(Copy, Clone, PartialEq, Eq, Structural, Debug)]
pub enum InformationElementType {
    Imsi,
    TeidDataI,
    Nsapi,
    GsnAddress,
    QoSProfile,
}

impl InformationElementType {
    /// The type octet this variant stands for.
    pub open spec fn spec_value(self) -> u8 {
        match self {
            InformationElementType::Imsi => 2,
            InformationElementType::TeidDataI => 16,
            InformationElementType::Nsapi => 20,
            InformationElementType::GsnAddress => 133,
            InformationElementType::QoSProfile => 135,
        }
    }

    /// The variant a type octet stands for, if any.
    pub open spec fn spec_from_u8(v: u8) -> Option<InformationElementType> {
        if v == 2 {
            Some(InformationElementType::Imsi)
        } else if v == 16 {
            Some(InformationElementType::TeidDataI)
        } else if v == 20 {
            Some(InformationElementType::Nsapi)
        } else if v == 133 {
            Some(InformationElementType::GsnAddress)
        } else if v == 135 {
            Some(InformationElementType::QoSProfile)
        } else {
            None
        }
    }

    pub fn value(&self) -> (r: u8)
        ensures
            r == self.spec_value(),
    {
        match self {
            InformationElementType::Imsi => 2,
            InformationElementType::TeidDataI => 16,
            InformationElementType::Nsapi => 20,
            InformationElementType::GsnAddress => 133,
            InformationElementType::QoSProfile => 135,
        }
    }

    pub fn try_from_u8(v: u8) -> (r: Option<InformationElementType>)
        ensures
            r == Self::spec_from_u8(v),
    {
        if v == 2 {
            Some(InformationElementType::Imsi)
        } else if v == 16 {
            Some(InformationElementType::TeidDataI)
        } else if v == 20 {
            Some(InformationElementType::Nsapi)
        } else if v == 133 {
            Some(InformationElementType::GsnAddress)
        } else if v == 135 {
            Some(InformationElementType::QoSProfile)
        } else {
            None
        }
    }
}

/// Whether the element at the head of `b` is one `InformationElement::parse`
/// accepts: a known type octet whose own decoder accepts the bytes.
pub open spec fn element_ok(b: Seq<u8>) -> bool {
    if b.len() == 0 {
        false
    } else {
        match InformationElementType::spec_from_u8(b[0]) {
            Some(t) => match t {
                InformationElementType::Imsi => imsi::parse_ok(b),
                InformationElementType::TeidDataI => teid_data_i::parse_ok(b),
                InformationElementType::Nsapi => nsapi::parse_ok(b),
                InformationElementType::GsnAddress => gsn_address::parse_ok(b),
                InformationElementType::QoSProfile => qos_profile::parse_ok(b),
            },
            None => false,
        }
    }
}

/// The octets the element at the head of `b` occupies: a fixed size for the
/// type-value elements, three octets plus the length field for the others.
pub open spec fn element_size(b: Seq<u8>) -> int {
    match InformationElementType::spec_from_u8(b[0]) {
        Some(t) => match t {
            InformationElementType::Imsi => 9int,
            InformationElementType::TeidDataI => 5int,
            InformationElementType::Nsapi => 2int,
            InformationElementType::GsnAddress => 3 + crate::bytes::val16(b, 1),
            InformationElementType::QoSProfile => 3 + crate::bytes::val16(b, 1),
        },
        None => 0int,
    }
}

/// Whether a scan over `b` reads element after element to the very end.
/// GTPv1 elements do not carry a self-describing length, so any element the
/// catalog refuses stops the scan.
pub open spec fn scan_ok(b: Seq<u8>) -> bool
    decreases b.len(),
{
    if b.len() == 0 {
        true
    } else if !element_ok(b) {
        false
    } else if element_size(b) < 1 || element_size(b) > b.len() {
        false
    } else {
        scan_ok(b.skip(element_size(b)))
    }
}

/// One scan step: the condition shifts by the element's size.
pub proof fn lemma_v1_scan_step(s: Seq<u8>)
    requires
        element_ok(s),
        1 <= element_size(s) <= s.len(),
    ensures
        scan_ok(s) == scan_ok(s.skip(element_size(s))),
{
}

/// How many elements of the given type octet a scan over `b` meets before
/// it stops.
pub open spec fn type_count(b: Seq<u8>, t: u8) -> int
    decreases b.len(),
{
    if b.len() == 0 || !element_ok(b) || element_size(b) < 1 || element_size(b) > b.len() {
        0int
    } else {
        (if b[0] == t {
            1int
        } else {
            0int
        }) + type_count(b.skip(element_size(b)), t)
    }
}

/// One scan step: the head element adds one to its own type's count.
pub proof fn lemma_v1_type_count_step(s: Seq<u8>)
    requires
        element_ok(s),
        1 <= element_size(s) <= s.len(),
    ensures
        forall|t: u8| #[trigger] type_count(s, t) == (if s[0] == t {
            1int
        } else {
            0int
        }) + type_count(s.skip(element_size(s)), t),
{
}

/// A non-empty remainder whose head the catalog refuses fails the scan.
pub proof fn lemma_v1_scan_dead(s: Seq<u8>)
    requires
        s.len() > 0,
        !element_ok(s),
    ensures
        !scan_ok(s),
{
}

/// What every GTPv1 information element offers: its type octet, its total
/// on-wire size (type and length octets included) and its byte image.
pub trait InformationElementTraits: Sized {
    /// The full on-wire image of the element.
    spec fn encoding(&self) -> Seq<u8>;

    /// The element's type.
    spec fn spec_type(&self) -> InformationElementType;

    /// The element's fields are inside the bounds its encoding assumes.
    spec fn wf(&self) -> bool;

    fn information_element_type(&self) -> (r: InformationElementType)
        ensures
            r == self.spec_type(),
    ;

    fn length(&self) -> (r: u16)
        requires
            self.wf(),
        ensures
            r == self.encoding().len(),
    ;

    fn generate(&self, buffer: &mut Vec<u8>) -> (n: usize)
        requires
            self.wf(),
        ensures
            final(buffer)@ == old(buffer)@ + self.encoding(),
            n == self.encoding().len(),
    ;
}

/// Any of the supported GTPv1 information elements.
pub enum InformationElement {
    Imsi(imsi::InformationElement),
    TeidDataI(teid_data_i::InformationElement),
    Nsapi(nsapi::InformationElement),
    GsnAddress(gsn_address::InformationElement),
    QoSProfile(qos_profile::InformationElement),
}

impl InformationElementTraits for InformationElement {
    open spec fn encoding(&self) -> Seq<u8> {
        match self {
            InformationElement::Imsi(ie) => ie.encoding(),
            InformationElement::TeidDataI(ie) => ie.encoding(),
            InformationElement::Nsapi(ie) => ie.encoding(),
            InformationElement::GsnAddress(ie) => ie.encoding(),
            InformationElement::QoSProfile(ie) => ie.encoding(),
        }
    }

    open spec fn spec_type(&self) -> InformationElementType {
        match self {
            InformationElement::Imsi(ie) => ie.spec_type(),
            InformationElement::TeidDataI(ie) => ie.spec_type(),
            InformationElement::Nsapi(ie) => ie.spec_type(),
            InformationElement::GsnAddress(ie) => ie.spec_type(),
            InformationElement::QoSProfile(ie) => ie.spec_type(),
        }
    }

    open spec fn wf(&self) -> bool {
        match self {
            InformationElement::Imsi(ie) => ie.wf(),
            InformationElement::TeidDataI(ie) => ie.wf(),
            InformationElement::Nsapi(ie) => ie.wf(),
            InformationElement::GsnAddress(ie) => ie.wf(),
            InformationElement::QoSProfile(ie) => ie.wf(),
        }
    }

    fn information_element_type(&self) -> (r: InformationElementType) {
        match self {
            InformationElement::Imsi(ie) => ie.information_element_type(),
            InformationElement::TeidDataI(ie) => ie.information_element_type(),
            InformationElement::Nsapi(ie) => ie.information_element_type(),
            InformationElement::GsnAddress(ie) => ie.information_element_type(),
            InformationElement::QoSProfile(ie) => ie.information_element_type(),
        }
    }

    fn length(&self) -> (r: u16) {
        match self {
            InformationElement::Imsi(ie) => ie.length(),
            InformationElement::TeidDataI(ie) => ie.length(),
            InformationElement::Nsapi(ie) => ie.length(),
            InformationElement::GsnAddress(ie) => ie.length(),
            InformationElement::QoSProfile(ie) => ie.length(),
        }
    }

    fn generate(&self, buffer: &mut Vec<u8>) -> (n: usize) {
        match self {
            InformationElement::Imsi(ie) => ie.generate(buffer),
            InformationElement::TeidDataI(ie) => ie.generate(buffer),
            InformationElement::Nsapi(ie) => ie.generate(buffer),
            InformationElement::GsnAddress(ie) => ie.generate(buffer),
            InformationElement::QoSProfile(ie) => ie.generate(buffer),
        }
    }
}

impl InformationElement {
    /// Reads one element, dispatching on the type octet.  An unknown type
    /// octet is fatal: GTPv1 elements do not carry a self-describing length,
    /// so there is no skip path.
    pub fn parse(buffer: &[u8]) -> (r: Option<(Self, usize)>)
        ensures
            r is Some <==> element_ok(buffer@),
            r matches Some((ie, n)) ==> ie.wf() && 0 < n <= buffer@.len() && ie.encoding().len()
                <= n && n == element_size(buffer@) && Some(ie.spec_type())
                == InformationElementType::spec_from_u8(buffer@[0]),
    {
        if buffer.len() == 0 {
            return None;
        }
        match InformationElementType::try_from_u8(buffer[0]) {
            Some(InformationElementType::Imsi) => {
                match imsi::InformationElement::parse(buffer) {
                    Some((ie, n)) => Some((InformationElement::Imsi(ie), n)),
                    None => None,
                }
            },
            Some(InformationElementType::TeidDataI) => {
                match teid_data_i::InformationElement::parse(buffer) {
                    Some((ie, n)) => Some((InformationElement::TeidDataI(ie), n)),
                    None => None,
                }
            },
            Some(InformationElementType::Nsapi) => {
                match nsapi::InformationElement::parse(buffer) {
                    Some((ie, n)) => Some((InformationElement::Nsapi(ie), n)),
                    None => None,
                }
            },
            Some(InformationElementType::GsnAddress) => {
                match gsn_address::InformationElement::parse(buffer) {
                    Some((ie, n)) => Some((InformationElement::GsnAddress(ie), n)),
                    None => None,
                }
            },
            Some(InformationElementType::QoSProfile) => {
                match qos_profile::InformationElement::parse(buffer) {
                    Some((ie, n)) => Some((InformationElement::QoSProfile(ie), n)),
                    None => None,
                }
            },
            None => None,
        }
    }
}

} // verus!
