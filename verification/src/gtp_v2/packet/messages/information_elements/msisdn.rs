//! MSISDN information element: the subscriber's telephone number, a variable
//! count of digits packed TBCD, the final high nibble of an odd count filled
//! with 0xF.

use vstd::prelude::*;
use vstd::string::StringSliceAdditionalSpecFns;

use crate::bytes::{
    all_nibbles,
    tbcd,
    untbcd,
    val16,
    parse_digits,
    write_tbcd,
    lemma_untbcd_step,
    lemma_untbcd_nibbles,
};
use crate::errors::GtpError;

use super::{
    InformationElementTraits,
    InformationElementType,
    ie_header,
    write_ie_header,
    read_ie_header,
};

verus! {

/// The inputs `parse` accepts: the element header is satisfied and the
/// recovered digits fit the element's own bounds.
pub open spec fn parse_ok(b: Seq<u8>) -> bool {
    b.len() >= 4 && b[0] == 76 && 4 + val16(b, 1) <= b.len() && val16(b, 1) <= 0xFFFB
}

/// MSISDN information element.
pub struct InformationElement {
    /// At most 0xF.
    pub instance: u8,
    /// The digits, one per entry.
    pub msisdn: Vec<u8>,
}

impl InformationElement {
    /// Accepts exactly a string of ASCII decimal digits under a four-bit
    /// instance.
    pub fn new(msisdn: &str, instance: u8) -> (r: Result<Self, GtpError>)
        ensures
            instance > 0xF ==> r == Err::<Self, GtpError>(GtpError::InstanceTooLarge),
            instance <= 0xF && !crate::bytes::all_digit_bytes(msisdn.spec_bytes()) ==> r == Err::<
                Self,
                GtpError,
            >(GtpError::MsisdnBadDigit),
            instance <= 0xF && crate::bytes::all_digit_bytes(msisdn.spec_bytes())
                && msisdn.spec_bytes().len() <= 0x1FFF6 ==> (r matches Ok(ie) && ie.wf()
                && ie.msisdn@ == crate::bytes::digits_of(msisdn.spec_bytes()) && ie.instance
                == instance),
    {
        if instance > 0xF {
            return Err(GtpError::InstanceTooLarge);
        }
        match parse_digits(msisdn) {
            Some(digits) => {
                if digits.len() > 0x1FFF6 {
                    return Err(GtpError::PacketTooLarge);
                }
                Ok(InformationElement { instance, msisdn: digits })
            },
            None => Err(GtpError::MsisdnBadDigit),
        }
    }

    /// The packed digit octets.
    pub fn generate_tbcd_msisdn(&self) -> (r: Vec<u8>)
        requires
            self.wf(),
        ensures
            r@ == tbcd(self.msisdn@),
    {
        let mut out: Vec<u8> = Vec::new();
        write_tbcd(&mut out, &self.msisdn);
        out
    }

    /// Reads one element: every packed octet contributes its low nibble and,
    /// unless it is the 0xF filler, its high nibble.  It fails exactly on a
    /// header the buffer cannot satisfy.
    pub fn parse(buffer: &[u8]) -> (r: Option<(Self, usize)>)
        ensures
            r is Some <==> parse_ok(buffer@),
            r matches Some((ie, n)) ==> {
                &&& n == 4 + val16(buffer@, 1)
                &&& ie.wf()
                &&& ie.encoding().len() <= n
                &&& ie.instance == buffer@[3] % 16
                &&& ie.msisdn@ == untbcd(buffer@.subrange(4, n as int))
            },
    {
        let (length, instance, total) = match read_ie_header(buffer, 76) {
            Some(h) => h,
            None => { return None },
        };
        if length > 0xFFFB {
            return None;
        }
        let ghost octets = buffer@.subrange(4, 4 + length as int);
        let mut digits: Vec<u8> = Vec::new();
        let mut k: usize = 0;
        let count = length as usize;
        while k < count
            invariant
                buffer@.len() >= 4 + count,
                count <= 0xFFFB,
                octets == buffer@.subrange(4int, 4 + count),
                octets.len() == count,
                k <= count,
                digits@.len() <= 2 * k,
                all_nibbles(digits@),
                digits@ =~= untbcd(octets.take(k as int)),
            decreases count - k,
        {
            proof {
                lemma_untbcd_step(octets, k as int);
            }
            let o = buffer[4 + k];
            proof {
                assert(octets[k as int] == o);
            }
            digits.push(o % 16);
            if o / 16 != 0xF {
                digits.push(o / 16);
            }
            proof {
                assert(digits@ =~= untbcd(octets.take(k + 1)));
            }
            k = k + 1;
        }
        proof {
            assert(octets.take(count as int) =~= octets);
            lemma_untbcd_nibbles(octets);
        }
        Some((InformationElement { instance, msisdn: digits }, total))
    }
}

impl InformationElementTraits for InformationElement {
    open spec fn encoding(&self) -> Seq<u8> {
        ie_header(76, ((self.msisdn@.len() + 1) / 2) as int, self.instance) + tbcd(self.msisdn@)
    }

    open spec fn spec_type(&self) -> InformationElementType {
        InformationElementType::MSISDN
    }

    open spec fn spec_instance(&self) -> u8 {
        self.instance
    }

    open spec fn with_instance(&self, instance: u8) -> Self {
        InformationElement { instance, msisdn: self.msisdn }
    }

    open spec fn wf(&self) -> bool {
        self.instance <= 0xF && all_nibbles(self.msisdn@) && self.msisdn@.len() <= 0x1FFF6
    }

    fn information_element_type(&self) -> (r: InformationElementType) {
        InformationElementType::MSISDN
    }

    fn instance(&self) -> (r: u8) {
        self.instance
    }

    fn set_instance(&mut self, instance: u8) -> (r: Result<u8, GtpError>) {
        if instance > 0xF {
            Err(GtpError::InstanceTooLarge)
        } else {
            self.instance = instance;
            Ok(instance)
        }
    }

    fn length(&self) -> (r: u16) {
        4 + (self.msisdn.len() / 2 + self.msisdn.len() % 2) as u16
    }

    fn generate(&self, buffer: &mut Vec<u8>) -> (n: usize) {
        let octets = self.msisdn.len() / 2 + self.msisdn.len() % 2;
        write_ie_header(buffer, 76, octets as u16, self.instance);
        write_tbcd(buffer, &self.msisdn);
        assert(buffer@ =~= old(buffer)@ + self.encoding());
        4 + octets
    }
}

} // verus!
