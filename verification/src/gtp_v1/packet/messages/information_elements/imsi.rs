//! IMSI information element (GTPv1): the type octet followed by the fifteen
//! subscriber digits packed two to an octet.
//!
//! This element's packing is shifted by a nibble: the first octet carries the
//! first digit in its high nibble over an 0xF filler, and each later octet
//! carries digit `2k` in its high nibble and digit `2k-1` in its low nibble.

use vstd::prelude::*;
use vstd::string::StringSliceAdditionalSpecFns;

use crate::bytes::{all_nibbles, parse_digits};
use crate::errors::GtpError;

use super::{InformationElementTraits, InformationElementType};

verus! {

/// The shifted digit packing this element uses, for a fifteen-digit string.
pub open spec fn tbcd_shifted(d: Seq<u8>) -> Seq<u8> {
    Seq::new(
        8,
        |k: int|
            if k == 0 {
                (d[0] * 16 + 0xF) as u8
            } else {
                (d[2 * k] * 16 + d[2 * k - 1]) as u8
            },
    )
}

/// The inputs `parse` accepts: the type octet and the eight packed octets.
pub open spec fn parse_ok(b: Seq<u8>) -> bool {
    b.len() >= 9 && b[0] == 2
}

/// IMSI information element.
pub struct InformationElement {
    /// Exactly fifteen decimal digits.
    pub imsi: Vec<u8>,
}

impl InformationElement {
    /// Accepts exactly a string of fifteen ASCII decimal digits.
    pub fn new(imsi: &str) -> (r: Result<Self, GtpError>)
        ensures
            r is Ok <==> imsi.spec_bytes().len() == 15 && crate::bytes::all_digit_bytes(
                imsi.spec_bytes(),
            ),
            imsi.spec_bytes().len() != 15 ==> r == Err::<Self, GtpError>(GtpError::ImsiWrongLength),
            imsi.spec_bytes().len() == 15 && !crate::bytes::all_digit_bytes(imsi.spec_bytes())
                ==> r == Err::<Self, GtpError>(GtpError::ImsiBadDigit),
            r matches Ok(ie) ==> ie.wf() && ie.imsi@ == crate::bytes::digits_of(imsi.spec_bytes()),
    {
        let n = imsi.as_bytes().len();
        if n != 15 {
            return Err(GtpError::ImsiWrongLength);
        }
        match parse_digits(imsi) {
            Some(digits) => Ok(InformationElement { imsi: digits }),
            None => Err(GtpError::ImsiBadDigit),
        }
    }

    /// The eight packed digit octets.
    pub fn generate_tbcd_imsi(&self) -> (r: Vec<u8>)
        requires
            self.wf(),
        ensures
            r@ == tbcd_shifted(self.imsi@),
    {
        let mut out: Vec<u8> = Vec::new();
        out.push(self.imsi[0] * 16 + 0xF);
        let mut k: usize = 1;
        while k < 8
            invariant
                self.wf(),
                1 <= k <= 8,
                out@ =~= tbcd_shifted(self.imsi@).take(k as int),
            decreases 8 - k,
        {
            out.push(self.imsi[2 * k] * 16 + self.imsi[2 * k - 1]);
            assert(out@ =~= tbcd_shifted(self.imsi@).take(k + 1));
            k = k + 1;
        }
        assert(out@ =~= tbcd_shifted(self.imsi@));
        out
    }

    /// Reads one element.  It fails exactly on a short buffer or a wrong type
    /// octet; the nibbles come back as stored, fillers included.
    pub fn parse(buffer: &[u8]) -> (r: Option<(Self, usize)>)
        ensures
            r is Some <==> parse_ok(buffer@),
            r matches Some((ie, n)) ==> {
                &&& n == 9
                &&& ie.wf()
                &&& ie.imsi@.len() == 15
                &&& forall|k: int|
                    1 <= k < 8 ==> #[trigger] ie.imsi@[2 * k] == buffer@[1 + k] / 16
                        && ie.imsi@[2 * k - 1] == buffer@[1 + k] % 16
                &&& ie.imsi@[0] == buffer@[1] / 16
            },
    {
        if buffer.len() < 9 || buffer[0] != 2 {
            return None;
        }
        let mut digits: Vec<u8> = Vec::new();
        digits.push(buffer[1] / 16);
        let mut k: usize = 1;
        while k < 8
            invariant
                buffer@.len() >= 9,
                1 <= k <= 8,
                digits@.len() == 2 * k - 1,
                all_nibbles(digits@),
                digits@[0] == buffer@[1] / 16,
                forall|j: int|
                    1 <= j < k ==> #[trigger] digits@[2 * j] == buffer@[1 + j] / 16 && digits@[2 * j
                        - 1] == buffer@[1 + j] % 16,
            decreases 8 - k,
        {
            digits.push(buffer[1 + k] % 16);
            digits.push(buffer[1 + k] / 16);
            proof {
                assert(digits@[2 * (k as int)] == buffer@[1 + k as int] / 16);
                assert(digits@[2 * (k as int) - 1] == buffer@[1 + k as int] % 16);
            }
            k = k + 1;
        }
        Some((InformationElement { imsi: digits }, 9))
    }
}

impl InformationElementTraits for InformationElement {
    open spec fn encoding(&self) -> Seq<u8> {
        seq![2u8] + tbcd_shifted(self.imsi@)
    }

    open spec fn spec_type(&self) -> InformationElementType {
        InformationElementType::Imsi
    }

    open spec fn wf(&self) -> bool {
        self.imsi@.len() == 15 && all_nibbles(self.imsi@)
    }

    fn information_element_type(&self) -> (r: InformationElementType) {
        InformationElementType::Imsi
    }

    fn length(&self) -> (r: u16) {
        9
    }

    fn generate(&self, buffer: &mut Vec<u8>) -> (n: usize) {
        buffer.push(2);
        let tbcd = self.generate_tbcd_imsi();
        let mut i: usize = 0;
        while i < tbcd.len()
            invariant
                tbcd@ == tbcd_shifted(self.imsi@),
                i <= tbcd@.len(),
                buffer@ =~= old(buffer)@ + seq![2u8] + tbcd@.take(i as int),
            decreases tbcd@.len() - i,
        {
            buffer.push(tbcd[i]);
            assert(buffer@ =~= old(buffer)@ + seq![2u8] + tbcd@.take(i + 1));
            i = i + 1;
        }
        assert(buffer@ =~= old(buffer)@ + self.encoding());
        9
    }
}

} // verus!
