//! IMSI information element (GTPv2): the fifteen subscriber digits packed
//! TBCD into eight octets, the final high nibble filled with 0xF.

use vstd::prelude::*;
use vstd::string::StringSliceAdditionalSpecFns;

use crate::bytes::{all_digits, all_nibbles, tbcd, val16, parse_digits, write_tbcd};
use crate::errors::GtpError;

use super::{
    InformationElementTraits,
    InformationElementType,
    ie_header,
    write_ie_header,
    read_ie_header,
};

verus! {

/// The fifteen digits read back from eight packed octets: digit `2k` from
/// the low nibble of octet `k`, digit `2k+1` from its high nibble, a 0xF
/// high nibble counting as zero.
pub open spec fn imsi_digits(b: Seq<u8>) -> Seq<u8> {
    Seq::new(
        15,
        |i: int|
            if i % 2 == 0 {
                (b[i / 2] % 16) as u8
            } else {
                if b[i / 2] / 16 == 0xF {
                    0u8
                } else {
                    (b[i / 2] / 16) as u8
                }
            },
    )
}

/// Decoding a packed fifteen-digit string gives the digits back.
pub proof fn lemma_imsi_digits_roundtrip(d: Seq<u8>)
    requires
        d.len() == 15,
        all_digits(d),
    ensures
        imsi_digits(tbcd(d)) =~= d,
{
    assert forall|i: int| 0 <= i < 15 implies imsi_digits(tbcd(d))[i] == d[i] by {
        let b = tbcd(d);
        let k = i / 2;
        assert(d[2 * k] <= 9);
        if 2 * k + 1 < 15 {
            assert(d[2 * k + 1] <= 9);
            assert(b[k] == (d[2 * k + 1] * 16 + d[2 * k]) as u8);
            assert(b[k] % 16 == d[2 * k] && b[k] / 16 == d[2 * k + 1]);
        } else {
            assert(b[k] == (0xF0 + d[2 * k]) as u8);
            assert(b[k] % 16 == d[2 * k] && b[k] / 16 == 0xF);
        }
    }
}

/// The inputs `parse` accepts: the element header is satisfied, the body is
/// the eight packed octets, and the final high nibble is the 0xF filler.
pub open spec fn parse_ok(b: Seq<u8>) -> bool {
    b.len() >= 12 && b[0] == 1 && val16(b, 1) == 8 && b[11] / 16 == 0xF
}

/// IMSI information element.
pub struct InformationElement {
    /// At most 0xF.
    pub instance: u8,
    /// Exactly fifteen digit nibbles.
    pub imsi: Vec<u8>,
}

impl InformationElement {
    /// Accepts exactly a string of fifteen ASCII decimal digits under a
    /// four-bit instance.
    pub fn new(imsi: &str, instance: u8) -> (r: Result<Self, GtpError>)
        ensures
            r is Ok <==> instance <= 0xF && imsi.spec_bytes().len() == 15
                && crate::bytes::all_digit_bytes(imsi.spec_bytes()),
            instance > 0xF ==> r == Err::<Self, GtpError>(GtpError::InstanceTooLarge),
            instance <= 0xF && imsi.spec_bytes().len() != 15 ==> r == Err::<Self, GtpError>(
                GtpError::ImsiWrongLength,
            ),
            instance <= 0xF && imsi.spec_bytes().len() == 15 && !crate::bytes::all_digit_bytes(
                imsi.spec_bytes(),
            ) ==> r == Err::<Self, GtpError>(GtpError::ImsiBadDigit),
            r matches Ok(ie) ==> ie.wf() && ie.imsi@ == crate::bytes::digits_of(imsi.spec_bytes())
                && ie.instance == instance && all_digits(ie.imsi@),
    {
        if instance > 0xF {
            return Err(GtpError::InstanceTooLarge);
        }
        let n = imsi.as_bytes().len();
        if n != 15 {
            return Err(GtpError::ImsiWrongLength);
        }
        match parse_digits(imsi) {
            Some(digits) => Ok(InformationElement { instance, imsi: digits }),
            None => Err(GtpError::ImsiBadDigit),
        }
    }

    /// The eight packed digit octets.
    pub fn generate_tbcd_imsi(&self) -> (r: Vec<u8>)
        requires
            self.wf(),
        ensures
            r@ == tbcd(self.imsi@),
    {
        let mut out: Vec<u8> = Vec::new();
        write_tbcd(&mut out, &self.imsi);
        out
    }

    /// Reads one element: eight packed octets, a 0xF high nibble counting as
    /// zero.  It fails exactly on a header the buffer cannot satisfy, a
    /// declared length other than eight, or a final high nibble that is not
    /// the 0xF filler.
    pub fn parse(buffer: &[u8]) -> (r: Option<(Self, usize)>)
        ensures
            r is Some <==> parse_ok(buffer@),
            r matches Some((ie, n)) ==> {
                &&& n == 12
                &&& ie.wf()
                &&& ie.encoding().len() <= n
                &&& ie.instance == buffer@[3] % 16
                &&& ie.imsi@ == imsi_digits(buffer@.subrange(4, 12))
            },
    {
        let (length, instance, total) = match read_ie_header(buffer, 1) {
            Some(h) => h,
            None => { return None },
        };
        if length != 8 {
            return None;
        }
        if buffer[11] / 16 != 0xF {
            return None;
        }
        let ghost octets = buffer@.subrange(4, 12);
        let mut digits: Vec<u8> = Vec::new();
        let mut k: usize = 0;
        while k < 7
            invariant
                buffer@.len() >= 12,
                octets == buffer@.subrange(4int, 12int),
                k <= 7,
                digits@.len() == 2 * k,
                digits@ =~= imsi_digits(octets).take(2 * k as int),
            decreases 7 - k,
        {
            let o = buffer[4 + k];
            proof {
                assert(octets[k as int] == o);
            }
            digits.push(o % 16);
            if o / 16 == 0xF {
                digits.push(0);
            } else {
                digits.push(o / 16);
            }
            proof {
                assert(digits@ =~= imsi_digits(octets).take(2 * (k + 1) as int));
            }
            k = k + 1;
        }
        digits.push(buffer[11] % 16);
        proof {
            assert(digits@ =~= imsi_digits(octets));
        }
        Some((InformationElement { instance, imsi: digits }, total))
    }
}

impl InformationElementTraits for InformationElement {
    open spec fn encoding(&self) -> Seq<u8> {
        ie_header(1, 8, self.instance) + tbcd(self.imsi@)
    }

    open spec fn spec_type(&self) -> InformationElementType {
        InformationElementType::IMSI
    }

    open spec fn spec_instance(&self) -> u8 {
        self.instance
    }

    open spec fn with_instance(&self, instance: u8) -> Self {
        InformationElement { instance, imsi: self.imsi }
    }

    open spec fn wf(&self) -> bool {
        self.instance <= 0xF && self.imsi@.len() == 15 && all_nibbles(self.imsi@)
    }

    fn information_element_type(&self) -> (r: InformationElementType) {
        InformationElementType::IMSI
    }

    fn instance(&self) -> (r: u8) {
        self.instance
    }

    fn set_instance(&mut self, instance: u8) -> (r: Result<u8, GtpError>) {
        if instance > 0xF {
            Err(GtpError::InstanceTooLarge)
        } else {
            self.instance = instance;
            Ok(instance)
        }
    }

    fn length(&self) -> (r: u16) {
        8 + 4
    }

    fn generate(&self, buffer: &mut Vec<u8>) -> (n: usize) {
        write_ie_header(buffer, 1, 8, self.instance);
        write_tbcd(buffer, &self.imsi);
        assert(buffer@ =~= old(buffer)@ + self.encoding());
        12
    }
}

} // verus!
