//! GTPv1 extension headers: the chained, typed records that may follow the
//! header's optional fields.  Each record is a multiple of four octets and
//! carries the type of its successor in its trailing octet; the tail carries
//! `NoMore`.

use vstd::prelude::*;

pub mod mbms_support_indication;
pub mod ms_info_change_reporting_support_indication;
pub mod pdcp_pdu_number;
pub mod suspend_request;
pub mod suspend_response;
pub mod udp_port;
pub mod long_pdcp_pdu_number;

verus! {

/// The wire values of the extension-header type octet.
#[derive(Copy, Clone, PartialEq, Eq, Structural, Debug)]
pub enum ExtensionHeaderType {
    NoMore,
    MbmsSi,
    MsInfoChange,
    UDPPort,
    LongPdcpPduNumber,
    PdcpPduNum,
    SuspendReq,
    SuspendRes,
}

impl ExtensionHeaderType {
    /// The type octet this variant stands for.
    pub open spec fn spec_value(self) -> u8 {
        match self {
            ExtensionHeaderType::NoMore => 0x00,
            ExtensionHeaderType::MbmsSi => 0x01,
            ExtensionHeaderType::MsInfoChange => 0x02,
            ExtensionHeaderType::UDPPort => 0x40,
            ExtensionHeaderType::LongPdcpPduNumber => 0x82,
            ExtensionHeaderType::PdcpPduNum => 0xC0,
            ExtensionHeaderType::SuspendReq => 0xC1,
            ExtensionHeaderType::SuspendRes => 0xC2,
        }
    }

    /// The variant a type octet stands for, if any.
    pub open spec fn spec_from_u8(v: u8) -> Option<ExtensionHeaderType> {
        if v == 0x00 {
            Some(ExtensionHeaderType::NoMore)
        } else if v == 0x01 {
            Some(ExtensionHeaderType::MbmsSi)
        } else if v == 0x02 {
            Some(ExtensionHeaderType::MsInfoChange)
        } else if v == 0x40 {
            Some(ExtensionHeaderType::UDPPort)
        } else if v == 0x82 {
            Some(ExtensionHeaderType::LongPdcpPduNumber)
        } else if v == 0xC0 {
            Some(ExtensionHeaderType::PdcpPduNum)
        } else if v == 0xC1 {
            Some(ExtensionHeaderType::SuspendReq)
        } else if v == 0xC2 {
            Some(ExtensionHeaderType::SuspendRes)
        } else {
            None
        }
    }

    pub fn value(&self) -> (r: u8)
        ensures
            r == self.spec_value(),
    {
        match self {
            ExtensionHeaderType::NoMore => 0x00,
            ExtensionHeaderType::MbmsSi => 0x01,
            ExtensionHeaderType::MsInfoChange => 0x02,
            ExtensionHeaderType::UDPPort => 0x40,
            ExtensionHeaderType::LongPdcpPduNumber => 0x82,
            ExtensionHeaderType::PdcpPduNum => 0xC0,
            ExtensionHeaderType::SuspendReq => 0xC1,
            ExtensionHeaderType::SuspendRes => 0xC2,
        }
    }

    pub fn try_from_u8(v: u8) -> (r: Option<ExtensionHeaderType>)
        ensures
            r == Self::spec_from_u8(v),
    {
        if v == 0x00 {
            Some(ExtensionHeaderType::NoMore)
        } else if v == 0x01 {
            Some(ExtensionHeaderType::MbmsSi)
        } else if v == 0x02 {
            Some(ExtensionHeaderType::MsInfoChange)
        } else if v == 0x40 {
            Some(ExtensionHeaderType::UDPPort)
        } else if v == 0x82 {
            Some(ExtensionHeaderType::LongPdcpPduNumber)
        } else if v == 0xC0 {
            Some(ExtensionHeaderType::PdcpPduNum)
        } else if v == 0xC1 {
            Some(ExtensionHeaderType::SuspendReq)
        } else if v == 0xC2 {
            Some(ExtensionHeaderType::SuspendRes)
        } else {
            None
        }
    }
}

/// A type octet the catalog knows maps back to the variant's own value.
pub proof fn lemma_ext_type_value(x: u8)
    ensures
        ExtensionHeaderType::spec_from_u8(x) matches Some(t) ==> t.spec_value() == x,
        ExtensionHeaderType::spec_from_u8(x) == Some(ExtensionHeaderType::NoMore) <==> x == 0,
{
}

/// What every extension-header record offers: its type, its successor link,
/// its on-wire size and its byte image.
pub trait ExtensionHeaderTraits: Sized {
    /// The full on-wire image of the record, trailing next-type octet included.
    spec fn encoding(&self) -> Seq<u8>;

    /// The type of this record.
    spec fn spec_type(&self) -> ExtensionHeaderType;

    /// The successor link the record carries.
    spec fn spec_next(&self) -> ExtensionHeaderType;

    /// This record with its successor link replaced.
    spec fn with_next(&self, next: ExtensionHeaderType) -> Self;

    fn extension_header_type(&self) -> (r: ExtensionHeaderType)
        ensures
            r == self.spec_type(),
    ;

    fn set_next_extension_header_type(&mut self, next_extension_header_type: ExtensionHeaderType)
        ensures
            *final(self) == old(self).with_next(next_extension_header_type),
    ;

    fn next_extension_header_type(&self) -> (r: ExtensionHeaderType)
        ensures
            r == self.spec_next(),
    ;

    fn length(&self) -> (r: u8)
        ensures
            r == self.encoding().len(),
    ;

    fn generate(&self, buffer: &mut Vec<u8>) -> (n: usize)
        ensures
            final(buffer)@ == old(buffer)@ + self.encoding(),
            n == self.encoding().len(),
    ;
}

/// Any of the supported extension-header records.
pub enum ExtensionHeader {
    LongPdcpPduNumber(long_pdcp_pdu_number::ExtensionHeader),
    MbmsSi(mbms_support_indication::ExtensionHeader),
    MsInfoChange(ms_info_change_reporting_support_indication::ExtensionHeader),
    PdcpPduNum(pdcp_pdu_number::ExtensionHeader),
    SuspendReq(suspend_request::ExtensionHeader),
    SuspendRes(suspend_response::ExtensionHeader),
    UDPPort(udp_port::ExtensionHeader),
}

impl ExtensionHeader {
    /// The payload number the record carries: a PDCP PDU number or a UDP
    /// port; the marker records carry none.
    pub open spec fn payload_value(&self) -> int {
        match self {
            ExtensionHeader::LongPdcpPduNumber(eh) => eh.pdcp_pdu_number as int,
            ExtensionHeader::PdcpPduNum(eh) => eh.pdcp_pdu_number as int,
            ExtensionHeader::UDPPort(eh) => eh.udp_port_number as int,
            _ => 0int,
        }
    }
}

impl ExtensionHeaderTraits for ExtensionHeader {
    open spec fn encoding(&self) -> Seq<u8> {
        match self {
            ExtensionHeader::LongPdcpPduNumber(eh) => eh.encoding(),
            ExtensionHeader::MbmsSi(eh) => eh.encoding(),
            ExtensionHeader::MsInfoChange(eh) => eh.encoding(),
            ExtensionHeader::PdcpPduNum(eh) => eh.encoding(),
            ExtensionHeader::SuspendReq(eh) => eh.encoding(),
            ExtensionHeader::SuspendRes(eh) => eh.encoding(),
            ExtensionHeader::UDPPort(eh) => eh.encoding(),
        }
    }

    open spec fn spec_type(&self) -> ExtensionHeaderType {
        match self {
            ExtensionHeader::LongPdcpPduNumber(eh) => eh.spec_type(),
            ExtensionHeader::MbmsSi(eh) => eh.spec_type(),
            ExtensionHeader::MsInfoChange(eh) => eh.spec_type(),
            ExtensionHeader::PdcpPduNum(eh) => eh.spec_type(),
            ExtensionHeader::SuspendReq(eh) => eh.spec_type(),
            ExtensionHeader::SuspendRes(eh) => eh.spec_type(),
            ExtensionHeader::UDPPort(eh) => eh.spec_type(),
        }
    }

    open spec fn spec_next(&self) -> ExtensionHeaderType {
        match self {
            ExtensionHeader::LongPdcpPduNumber(eh) => eh.spec_next(),
            ExtensionHeader::MbmsSi(eh) => eh.spec_next(),
            ExtensionHeader::MsInfoChange(eh) => eh.spec_next(),
            ExtensionHeader::PdcpPduNum(eh) => eh.spec_next(),
            ExtensionHeader::SuspendReq(eh) => eh.spec_next(),
            ExtensionHeader::SuspendRes(eh) => eh.spec_next(),
            ExtensionHeader::UDPPort(eh) => eh.spec_next(),
        }
    }

    open spec fn with_next(&self, next: ExtensionHeaderType) -> Self {
        match self {
            ExtensionHeader::LongPdcpPduNumber(eh) => ExtensionHeader::LongPdcpPduNumber(
                eh.with_next(next),
            ),
            ExtensionHeader::MbmsSi(eh) => ExtensionHeader::MbmsSi(eh.with_next(next)),
            ExtensionHeader::MsInfoChange(eh) => ExtensionHeader::MsInfoChange(eh.with_next(next)),
            ExtensionHeader::PdcpPduNum(eh) => ExtensionHeader::PdcpPduNum(eh.with_next(next)),
            ExtensionHeader::SuspendReq(eh) => ExtensionHeader::SuspendReq(eh.with_next(next)),
            ExtensionHeader::SuspendRes(eh) => ExtensionHeader::SuspendRes(eh.with_next(next)),
            ExtensionHeader::UDPPort(eh) => ExtensionHeader::UDPPort(eh.with_next(next)),
        }
    }

    fn extension_header_type(&self) -> (r: ExtensionHeaderType) {
        match self {
            ExtensionHeader::LongPdcpPduNumber(eh) => eh.extension_header_type(),
            ExtensionHeader::MbmsSi(eh) => eh.extension_header_type(),
            ExtensionHeader::MsInfoChange(eh) => eh.extension_header_type(),
            ExtensionHeader::PdcpPduNum(eh) => eh.extension_header_type(),
            ExtensionHeader::SuspendReq(eh) => eh.extension_header_type(),
            ExtensionHeader::SuspendRes(eh) => eh.extension_header_type(),
            ExtensionHeader::UDPPort(eh) => eh.extension_header_type(),
        }
    }

    fn set_next_extension_header_type(&mut self, next_extension_header_type: ExtensionHeaderType) {
        match self {
            ExtensionHeader::LongPdcpPduNumber(eh) => eh.set_next_extension_header_type(
                next_extension_header_type,
            ),
            ExtensionHeader::MbmsSi(eh) => eh.set_next_extension_header_type(
                next_extension_header_type,
            ),
            ExtensionHeader::MsInfoChange(eh) => eh.set_next_extension_header_type(
                next_extension_header_type,
            ),
            ExtensionHeader::PdcpPduNum(eh) => eh.set_next_extension_header_type(
                next_extension_header_type,
            ),
            ExtensionHeader::SuspendReq(eh) => eh.set_next_extension_header_type(
                next_extension_header_type,
            ),
            ExtensionHeader::SuspendRes(eh) => eh.set_next_extension_header_type(
                next_extension_header_type,
            ),
            ExtensionHeader::UDPPort(eh) => eh.set_next_extension_header_type(
                next_extension_header_type,
            ),
        }
    }

    fn next_extension_header_type(&self) -> (r: ExtensionHeaderType) {
        match self {
            ExtensionHeader::LongPdcpPduNumber(eh) => eh.next_extension_header_type(),
            ExtensionHeader::MbmsSi(eh) => eh.next_extension_header_type(),
            ExtensionHeader::MsInfoChange(eh) => eh.next_extension_header_type(),
            ExtensionHeader::PdcpPduNum(eh) => eh.next_extension_header_type(),
            ExtensionHeader::SuspendReq(eh) => eh.next_extension_header_type(),
            ExtensionHeader::SuspendRes(eh) => eh.next_extension_header_type(),
            ExtensionHeader::UDPPort(eh) => eh.next_extension_header_type(),
        }
    }

    fn length(&self) -> (r: u8) {
        match self {
            ExtensionHeader::LongPdcpPduNumber(eh) => eh.length(),
            ExtensionHeader::MbmsSi(eh) => eh.length(),
            ExtensionHeader::MsInfoChange(eh) => eh.length(),
            ExtensionHeader::PdcpPduNum(eh) => eh.length(),
            ExtensionHeader::SuspendReq(eh) => eh.length(),
            ExtensionHeader::SuspendRes(eh) => eh.length(),
            ExtensionHeader::UDPPort(eh) => eh.length(),
        }
    }

    fn generate(&self, buffer: &mut Vec<u8>) -> (n: usize) {
        match self {
            ExtensionHeader::LongPdcpPduNumber(eh) => eh.generate(buffer),
            ExtensionHeader::MbmsSi(eh) => eh.generate(buffer),
            ExtensionHeader::MsInfoChange(eh) => eh.generate(buffer),
            ExtensionHeader::PdcpPduNum(eh) => eh.generate(buffer),
            ExtensionHeader::SuspendReq(eh) => eh.generate(buffer),
            ExtensionHeader::SuspendRes(eh) => eh.generate(buffer),
            ExtensionHeader::UDPPort(eh) => eh.generate(buffer),
        }
    }
}

impl ExtensionHeader {
    /// Every record's image ends in its successor-link octet, is 4 or 8 octets
    /// long, and replacing the link changes nothing but that octet.
    pub proof fn lemma_encoding_shape(&self)
        ensures
            self.encoding().len() == 4 || self.encoding().len() == 8,
            self.encoding().last() == self.spec_next().spec_value(),
            forall|t: ExtensionHeaderType| (#[trigger] self.with_next(t)).spec_type()
                == self.spec_type(),
            forall|t: ExtensionHeaderType| (#[trigger] self.with_next(t)).spec_next() == t,
            forall|t: ExtensionHeaderType| (#[trigger] self.with_next(t)).encoding()
                =~= self.encoding().update(self.encoding().len() - 1, t.spec_value()),
    {
    }
}

} // verus!
