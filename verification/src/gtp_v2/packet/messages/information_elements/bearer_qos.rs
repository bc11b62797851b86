//! Bearer Level Quality of Service information element: one flag octet
//! (pre-emption capability and vulnerability as disabled-bits around a
//! four-bit priority level), the QCI, and four 40-bit bitrates, big-endian,
//! in the order maximum uplink, maximum downlink, guaranteed uplink,
//! guaranteed downlink, each bounded by 10,000,000 kbit/s.

use vstd::prelude::*;

use crate::bytes::{be40, val16, val40, write_u40_be, read_u40_be};
use crate::errors::GtpError;

use super::{
    InformationElementTraits,
    InformationElementType,
    ie_header,
    write_ie_header,
    read_ie_header,
};

verus! {

/// The inputs `parse` accepts: the element header is satisfied and the
/// declared body holds the 22 octets.
pub open spec fn parse_ok(b: Seq<u8>) -> bool {
    b.len() >= 4 && b[0] == 80 && 4 + val16(b, 1) <= b.len() && val16(b, 1) >= 22
}

/// Bearer QoS information element.
pub struct InformationElement {
    /// At most 0xF.
    pub instance: u8,
    /// Pre-emption capability enabled (its wire bit, set, means disabled).
    pub pci: bool,
    /// Priority level, at most 0xF.
    pub pl: u8,
    /// Pre-emption vulnerability enabled (its wire bit, set, means disabled).
    pub pvi: bool,
    pub qci: u8,
    /// At most 10,000,000.
    pub max_ul_bitrate: u64,
    /// At most 10,000,000.
    pub max_dl_bitrate: u64,
    /// At most 10,000,000.
    pub guaranteed_ul_bitrate: u64,
    /// At most 10,000,000.
    pub guaranteed_dl_bitrate: u64,
}

impl InformationElement {
    /// The flag octet: a set bit 6 means pre-emption capability disabled and
    /// a set bit 0 means pre-emption vulnerability disabled.
    pub closed spec fn flags_octet(&self) -> u8 {
        ((if self.pci {
            0int
        } else {
            64int
        }) + (self.pl % 16) * 4 + (if self.pvi {
            0int
        } else {
            1int
        })) as u8
    }

    /// The 22-octet body.
    pub closed spec fn body(&self) -> Seq<u8> {
        seq![self.flags_octet(), self.qci] + be40(self.max_ul_bitrate) + be40(self.max_dl_bitrate)
            + be40(self.guaranteed_ul_bitrate) + be40(self.guaranteed_dl_bitrate)
    }

    /// Accepts exactly a four-bit priority level and bitrates of at most
    /// 10,000,000, testing the fields in that order.
    pub fn new(
        pci: bool,
        pl: u8,
        pvi: bool,
        qci: u8,
        max_ul_bitrate: u64,
        max_dl_bitrate: u64,
        guaranteed_ul_bitrate: u64,
        guaranteed_dl_bitrate: u64,
        instance: u8,
    ) -> (r: Result<Self, GtpError>)
        ensures
            instance > 0xF ==> r == Err::<Self, GtpError>(GtpError::InstanceTooLarge),
            instance <= 0xF && pl > 0xF ==> r == Err::<Self, GtpError>(
                GtpError::PriorityLevelTooLarge,
            ),
            instance <= 0xF && pl <= 0xF && (max_ul_bitrate > 10000000 || max_dl_bitrate > 10000000
                || guaranteed_ul_bitrate > 10000000 || guaranteed_dl_bitrate > 10000000) ==> r
                == Err::<Self, GtpError>(GtpError::BitrateTooLarge),
            instance <= 0xF && pl <= 0xF && max_ul_bitrate <= 10000000 && max_dl_bitrate
                <= 10000000 && guaranteed_ul_bitrate <= 10000000 && guaranteed_dl_bitrate
                <= 10000000 ==> (r matches Ok(ie) && ie == (InformationElement {
                instance,
                pci,
                pl,
                pvi,
                qci,
                max_ul_bitrate,
                max_dl_bitrate,
                guaranteed_ul_bitrate,
                guaranteed_dl_bitrate,
            }) && ie.wf()),
    {
        if instance > 0xF {
            return Err(GtpError::InstanceTooLarge);
        }
        if pl > 0xF {
            return Err(GtpError::PriorityLevelTooLarge);
        }
        if max_ul_bitrate > 10000000 || max_dl_bitrate > 10000000 || guaranteed_ul_bitrate
            > 10000000 || guaranteed_dl_bitrate > 10000000 {
            return Err(GtpError::BitrateTooLarge);
        }
        Ok(
            InformationElement {
                instance,
                pci,
                pl,
                pvi,
                qci,
                max_ul_bitrate,
                max_dl_bitrate,
                guaranteed_ul_bitrate,
                guaranteed_dl_bitrate,
            },
        )
    }

    pub fn pl(&self) -> (r: u8)
        ensures
            r == self.pl,
    {
        self.pl
    }

    pub fn max_ul_bitrate(&self) -> (r: u64)
        ensures
            r == self.max_ul_bitrate,
    {
        self.max_ul_bitrate
    }

    pub fn max_dl_bitrate(&self) -> (r: u64)
        ensures
            r == self.max_dl_bitrate,
    {
        self.max_dl_bitrate
    }

    pub fn guaranteed_ul_bitrate(&self) -> (r: u64)
        ensures
            r == self.guaranteed_ul_bitrate,
    {
        self.guaranteed_ul_bitrate
    }

    pub fn guaranteed_dl_bitrate(&self) -> (r: u64)
        ensures
            r == self.guaranteed_dl_bitrate,
    {
        self.guaranteed_dl_bitrate
    }

    /// Reads one element.  The pre-emption flags are disabled-bits on the
    /// wire, so a set bit comes back as `false`; the bitrates are taken as
    /// stored, however large.  It fails exactly on a header the buffer
    /// cannot satisfy or a declared length under 22.
    pub fn parse(buffer: &[u8]) -> (r: Option<(Self, usize)>)
        ensures
            r is Some <==> parse_ok(buffer@),
            r matches Some((ie, n)) ==> {
                &&& n == 4 + val16(buffer@, 1)
                &&& ie.instance == buffer@[3] % 16
                &&& ie.pci == ((buffer@[4] / 64) % 2 == 0)
                &&& ie.pl == (buffer@[4] / 4) % 16
                &&& ie.pvi == (buffer@[4] % 2 == 0)
                &&& ie.qci == buffer@[5]
                &&& ie.max_ul_bitrate == val40(buffer@, 6)
                &&& ie.max_dl_bitrate == val40(buffer@, 11)
                &&& ie.guaranteed_ul_bitrate == val40(buffer@, 16)
                &&& ie.guaranteed_dl_bitrate == val40(buffer@, 21)
                &&& ie.wf()
                &&& ie.encoding().len() <= n
            },
    {
        let (length, instance, total) = match read_ie_header(buffer, 80) {
            Some(h) => h,
            None => { return None },
        };
        if length < 22 {
            return None;
        }
        let flags = buffer[4];
        let pci = (flags / 64) % 2 == 0;
        let pl = (flags / 4) % 16;
        let pvi = flags % 2 == 0;
        let qci = buffer[5];
        let max_ul_bitrate = read_u40_be(buffer, 6);
        let max_dl_bitrate = read_u40_be(buffer, 11);
        let guaranteed_ul_bitrate = read_u40_be(buffer, 16);
        let guaranteed_dl_bitrate = read_u40_be(buffer, 21);
        Some(
            (
                InformationElement {
                    instance,
                    pci,
                    pl,
                    pvi,
                    qci,
                    max_ul_bitrate,
                    max_dl_bitrate,
                    guaranteed_ul_bitrate,
                    guaranteed_dl_bitrate,
                },
                total,
            ),
        )
    }
}

impl InformationElement {
    /// The element's image is always 26 octets.
    pub proof fn lemma_encoding_len(&self)
        ensures
            self.encoding().len() == 26,
    {
    }
}

impl InformationElementTraits for InformationElement {
    open spec fn encoding(&self) -> Seq<u8> {
        ie_header(80, 22, self.instance) + self.body()
    }

    open spec fn spec_type(&self) -> InformationElementType {
        InformationElementType::BearerQoS
    }

    open spec fn spec_instance(&self) -> u8 {
        self.instance
    }

    open spec fn with_instance(&self, instance: u8) -> Self {
        InformationElement { instance, ..*self }
    }

    open spec fn wf(&self) -> bool {
        self.instance <= 0xF
    }

    fn information_element_type(&self) -> (r: InformationElementType) {
        InformationElementType::BearerQoS
    }

    fn instance(&self) -> (r: u8) {
        self.instance
    }

    fn set_instance(&mut self, instance: u8) -> (r: Result<u8, GtpError>) {
        if instance > 0xF {
            Err(GtpError::InstanceTooLarge)
        } else {
            self.instance = instance;
            Ok(instance)
        }
    }

    fn length(&self) -> (r: u16) {
        4 + 22
    }

    fn generate(&self, buffer: &mut Vec<u8>) -> (n: usize) {
        write_ie_header(buffer, 80, 22, self.instance);
        let flags: u8 = (if self.pci {
            0
        } else {
            64
        }) + (self.pl % 16) * 4 + (if self.pvi {
            0
        } else {
            1
        });
        buffer.push(flags);
        buffer.push(self.qci);
        write_u40_be(buffer, self.max_ul_bitrate);
        write_u40_be(buffer, self.max_dl_bitrate);
        write_u40_be(buffer, self.guaranteed_ul_bitrate);
        write_u40_be(buffer, self.guaranteed_dl_bitrate);
        assert(buffer@ =~= old(buffer)@ + self.encoding());
        26
    }
}

} // verus!
