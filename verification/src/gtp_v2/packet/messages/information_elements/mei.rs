//! Mobile Equipment Identity information element: the fifteen IMEI digits
//! packed TBCD into eight octets, the final high nibble carrying the
//! four-bit software version when present and the 0xF filler when not.

use vstd::prelude::*;

use crate::bytes::{all_nibbles, tbcd, val16, write_tbcd};
use crate::errors::GtpError;

use super::{
    InformationElementTraits,
    InformationElementType,
    ie_header,
    write_ie_header,
    read_ie_header,
};

verus! {

/// The fifteen digit nibbles read back from eight packed octets, raw.
pub open spec fn mei_digits(b: Seq<u8>) -> Seq<u8> {
    Seq::new(
        15,
        |i: int|
            if i % 2 == 0 {
                (b[i / 2] % 16) as u8
            } else {
                (b[i / 2] / 16) as u8
            },
    )
}

/// The inputs `parse` accepts: the element header is satisfied and the body
/// is the eight packed octets.
pub open spec fn parse_ok(b: Seq<u8>) -> bool {
    b.len() >= 12 && b[0] == 75 && val16(b, 1) == 8
}

/// MEI information element.
pub struct InformationElement {
    /// At most 0xF.
    pub instance: u8,
    /// Exactly fifteen digit nibbles.
    pub imei: Vec<u8>,
    /// The software version nibble, if the identity is an IMEI-SV.
    pub sv: Option<u8>,
}

impl InformationElement {
    /// The final packed octet: the software version (or the 0xF filler) over
    /// the fifteenth digit.
    pub open spec fn last_octet(&self) -> u8 {
        match self.sv {
            Some(sv) => ((sv % 16) * 16 + self.imei@[14] % 16) as u8,
            None => (0xF0 + self.imei@[14] % 16) as u8,
        }
    }

    pub fn new(imei: [u8; 15], sv: Option<u8>, instance: u8) -> (r: Result<Self, GtpError>)
        ensures
            instance > 0xF ==> r == Err::<Self, GtpError>(GtpError::InstanceTooLarge),
            instance <= 0xF ==> (r matches Ok(ie) && ie.imei@ == imei@ && ie.sv == sv
                && ie.instance == instance),
    {
        if instance > 0xF {
            return Err(GtpError::InstanceTooLarge);
        }
        let mut digits: Vec<u8> = Vec::new();
        let mut i: usize = 0;
        while i < 15
            invariant
                i <= 15,
                digits@ =~= imei@.take(i as int),
            decreases 15 - i,
        {
            digits.push(imei[i]);
            assert(digits@ =~= imei@.take(i + 1));
            i = i + 1;
        }
        proof {
            assert(imei@.take(15int) =~= imei@);
        }
        Ok(InformationElement { instance, imei: digits, sv })
    }

    /// The eight packed octets.
    pub fn generate_tbcd_imei(&self) -> (r: Vec<u8>)
        requires
            self.wf(),
        ensures
            r@ == tbcd(self.imei@.take(14)) + seq![self.last_octet()],
    {
        let mut out: Vec<u8> = Vec::new();
        let mut k: usize = 0;
        let ghost first14 = self.imei@.take(14);
        while k < 7
            invariant
                self.wf(),
                first14 == self.imei@.take(14int),
                k <= 7,
                out@ =~= tbcd(first14).take(k as int),
            decreases 7 - k,
        {
            out.push(self.imei[2 * k + 1] * 16 + self.imei[2 * k]);
            assert(out@ =~= tbcd(first14).take(k + 1));
            k = k + 1;
        }
        proof {
            assert(tbcd(first14).take(7int) =~= tbcd(first14));
        }
        match self.sv {
            Some(sv) => {
                out.push((sv % 16) * 16 + self.imei[14] % 16);
            },
            None => {
                out.push(0xF0 + self.imei[14] % 16);
            },
        }
        assert(out@ =~= tbcd(self.imei@.take(14)) + seq![self.last_octet()]);
        out
    }

    /// Reads one element: fifteen raw nibbles and the software version, a
    /// 0xF in its place meaning none.  It fails exactly on a header the
    /// buffer cannot satisfy or a declared length other than eight.
    pub fn parse(buffer: &[u8]) -> (r: Option<(Self, usize)>)
        ensures
            r is Some <==> parse_ok(buffer@),
            r matches Some((ie, n)) ==> {
                &&& n == 12
                &&& ie.wf()
                &&& ie.encoding().len() <= n
                &&& ie.instance == buffer@[3] % 16
                &&& ie.imei@ == mei_digits(buffer@.subrange(4, 12))
                &&& (buffer@[11] / 16 == 0xF ==> ie.sv is None)
                &&& (buffer@[11] / 16 != 0xF ==> ie.sv == Some((buffer@[11] / 16) as u8))
            },
    {
        let (length, instance, total) = match read_ie_header(buffer, 75) {
            Some(h) => h,
            None => { return None },
        };
        if length != 8 {
            return None;
        }
        let ghost octets = buffer@.subrange(4, 12);
        let mut digits: Vec<u8> = Vec::new();
        let mut k: usize = 0;
        while k < 7
            invariant
                buffer@.len() >= 12,
                octets == buffer@.subrange(4int, 12int),
                k <= 7,
                digits@.len() == 2 * k,
                digits@ =~= mei_digits(octets).take(2 * k as int),
            decreases 7 - k,
        {
            let o = buffer[4 + k];
            proof {
                assert(octets[k as int] == o);
            }
            digits.push(o % 16);
            digits.push(o / 16);
            proof {
                assert(digits@ =~= mei_digits(octets).take(2 * (k + 1) as int));
            }
            k = k + 1;
        }
        let last = buffer[11];
        digits.push(last % 16);
        let sv: Option<u8> = if last / 16 != 0xF {
            Some(last / 16)
        } else {
            None
        };
        proof {
            assert(digits@ =~= mei_digits(octets));
        }
        Some((InformationElement { instance, imei: digits, sv }, total))
    }
}

impl InformationElementTraits for InformationElement {
    open spec fn encoding(&self) -> Seq<u8> {
        ie_header(75, 8, self.instance) + tbcd(self.imei@.take(14)) + seq![self.last_octet()]
    }

    open spec fn spec_type(&self) -> InformationElementType {
        InformationElementType::MEI
    }

    open spec fn spec_instance(&self) -> u8 {
        self.instance
    }

    open spec fn with_instance(&self, instance: u8) -> Self {
        InformationElement { instance, imei: self.imei, sv: self.sv }
    }

    open spec fn wf(&self) -> bool {
        self.instance <= 0xF && self.imei@.len() == 15 && all_nibbles(self.imei@)
    }

    fn information_element_type(&self) -> (r: InformationElementType) {
        InformationElementType::MEI
    }

    fn instance(&self) -> (r: u8) {
        self.instance
    }

    fn set_instance(&mut self, instance: u8) -> (r: Result<u8, GtpError>) {
        if instance > 0xF {
            Err(GtpError::InstanceTooLarge)
        } else {
            self.instance = instance;
            Ok(instance)
        }
    }

    fn length(&self) -> (r: u16) {
        4 + 8
    }

    fn generate(&self, buffer: &mut Vec<u8>) -> (n: usize) {
        write_ie_header(buffer, 75, 8, self.instance);
        let tbcd_imei = self.generate_tbcd_imei();
        crate::bytes::write_bytes(buffer, tbcd_imei.as_slice());
        assert(buffer@ =~= old(buffer)@ + self.encoding());
        12
    }
}

} // verus!
