//! The location sub-structures a User Location Information element can
//! carry: a PLMN identity and the eight record kinds keyed by the element's
//! flag octet.

use vstd::prelude::*;

use crate::bytes::{be16, be24, be32, val16, val24, val32, write_u16_be, write_u24_be, write_u32_be, read_u16_be, read_u24_be, read_u32_be};
use crate::errors::GtpError;

verus! {

/// A Public Land Mobile Network identity: three MCC digits and three MNC
/// digits, packed into three octets on the wire.
#[derive(Copy, Clone, PartialEq, Eq, Debug)]
pub struct PLMN {
    pub mcc: [u8; 3],
    pub mnc: [u8; 3],
}

impl PLMN {
    /// The image is always 3 octets.
    pub proof fn lemma_encoding_len(&self)
        ensures
            self.encoding().len() == 3,
    {
    }

    /// The three packed octets: `(MCC2<<4)|MCC1`, `(MNC3<<4)|MCC3`,
    /// `(MNC2<<4)|MNC1`.
    pub closed spec fn encoding(&self) -> Seq<u8> {
        seq![
            ((self.mcc@[1] % 16) * 16 + self.mcc@[0] % 16) as u8,
            ((self.mnc@[2] % 16) * 16 + self.mcc@[2] % 16) as u8,
            ((self.mnc@[1] % 16) * 16 + self.mnc@[0] % 16) as u8,
        ]
    }

    pub fn new(mcc: [u8; 3], mnc: [u8; 3]) -> (r: Self)
        ensures
            r == (PLMN { mcc, mnc }),
    {
        Self { mcc, mnc }
    }

    /// Reads three packed octets.  It fails exactly on a short buffer; the
    /// digits come back as nibbles.
    pub fn parse(buffer: &[u8]) -> (r: Option<(Self, usize)>)
        ensures
            r is Some <==> buffer@.len() >= 3,
            r matches Some((p, n)) ==> {
                &&& n == 3
                &&& p.mcc@ =~= seq![(buffer@[0] % 16) as u8, (buffer@[0] / 16) as u8, (buffer@[1] % 16) as u8]
                &&& p.mnc@ =~= seq![(buffer@[2] % 16) as u8, (buffer@[2] / 16) as u8, (buffer@[1] / 16) as u8]
            },
    {
        if buffer.len() < 3 {
            return None;
        }
        let mcc = [buffer[0] % 16, buffer[0] / 16, buffer[1] % 16];
        let mnc = [buffer[2] % 16, buffer[2] / 16, buffer[1] / 16];
        Some((Self { mcc, mnc }, 3))
    }

    /// Writes the three packed octets.
    pub fn generate(&self, buffer: &mut Vec<u8>) -> (n: usize)
        ensures
            final(buffer)@ == old(buffer)@ + self.encoding(),
            n == 3,
    {
        buffer.push((self.mcc[1] % 16) * 16 + self.mcc[0] % 16);
        buffer.push((self.mnc[2] % 16) * 16 + self.mcc[2] % 16);
        buffer.push((self.mnc[1] % 16) * 16 + self.mnc[0] % 16);
        assert(buffer@ =~= old(buffer)@ + self.encoding());
        3
    }

    pub fn length(&self) -> (r: u16)
        ensures
            r == self.encoding().len(),
    {
        3
    }
}


/// Cell Global Identifier: location area code and cell identity.
#[derive(Copy, Clone, PartialEq, Eq, Debug)]
pub struct CGI {
    pub plmn: PLMN,
    pub lac: u16,
    pub ci: u16,
}

impl CGI {
    /// The image is always 7 octets.
    pub proof fn lemma_encoding_len(&self)
        ensures
            self.encoding().len() == 7,
    {
    }

    /// The PLMN followed by `lac` and `ci`, big-endian.
    pub closed spec fn encoding(&self) -> Seq<u8> {
        self.plmn.encoding() + be16(self.lac) + be16(self.ci)
    }

    pub fn new(plmn: PLMN, lac: u16, ci: u16) -> (r: Self)
        ensures
            r == (CGI { plmn, lac, ci }),
    {
        Self { plmn, lac, ci }
    }

    /// Reads the PLMN and the two identifiers.  It fails exactly on a short
    /// buffer.
    pub fn parse(buffer: &[u8]) -> (r: Option<(Self, usize)>)
        ensures
            r is Some <==> buffer@.len() >= 7,
            r matches Some((v, n)) ==> n == 7 && v.lac == val16(buffer@, 3) && v.ci == val16(
                buffer@,
                5,
            ),
    {
        if buffer.len() < 7 {
            return None;
        }
        let (plmn, _) = PLMN::parse(buffer).unwrap();
        Some((Self { plmn, lac: read_u16_be(buffer, 3), ci: read_u16_be(buffer, 5) }, 7))
    }

    pub fn generate(&self, buffer: &mut Vec<u8>) -> (n: usize)
        ensures
            final(buffer)@ == old(buffer)@ + self.encoding(),
            n == 7,
    {
        let p = self.plmn.generate(buffer);
        write_u16_be(buffer, self.lac);
        write_u16_be(buffer, self.ci);
        assert(buffer@ =~= old(buffer)@ + self.encoding());
        7
    }

    pub fn length(&self) -> (r: u16)
        ensures
            r == self.encoding().len(),
    {
        self.plmn.length() + 4
    }
}


/// Service Area Identifier: location area code and service area code.
#[derive(Copy, Clone, PartialEq, Eq, Debug)]
pub struct SAI {
    pub plmn: PLMN,
    pub lac: u16,
    pub sac: u16,
}

impl SAI {
    /// The image is always 7 octets.
    pub proof fn lemma_encoding_len(&self)
        ensures
            self.encoding().len() == 7,
    {
    }

    /// The PLMN followed by `lac` and `sac`, big-endian.
    pub closed spec fn encoding(&self) -> Seq<u8> {
        self.plmn.encoding() + be16(self.lac) + be16(self.sac)
    }

    pub fn new(plmn: PLMN, lac: u16, sac: u16) -> (r: Self)
        ensures
            r == (SAI { plmn, lac, sac }),
    {
        Self { plmn, lac, sac }
    }

    /// Reads the PLMN and the two identifiers.  It fails exactly on a short
    /// buffer.
    pub fn parse(buffer: &[u8]) -> (r: Option<(Self, usize)>)
        ensures
            r is Some <==> buffer@.len() >= 7,
            r matches Some((v, n)) ==> n == 7 && v.lac == val16(buffer@, 3) && v.sac == val16(
                buffer@,
                5,
            ),
    {
        if buffer.len() < 7 {
            return None;
        }
        let (plmn, _) = PLMN::parse(buffer).unwrap();
        Some((Self { plmn, lac: read_u16_be(buffer, 3), sac: read_u16_be(buffer, 5) }, 7))
    }

    pub fn generate(&self, buffer: &mut Vec<u8>) -> (n: usize)
        ensures
            final(buffer)@ == old(buffer)@ + self.encoding(),
            n == 7,
    {
        let p = self.plmn.generate(buffer);
        write_u16_be(buffer, self.lac);
        write_u16_be(buffer, self.sac);
        assert(buffer@ =~= old(buffer)@ + self.encoding());
        7
    }

    pub fn length(&self) -> (r: u16)
        ensures
            r == self.encoding().len(),
    {
        self.plmn.length() + 4
    }
}


/// Routeing Area Identifier: location area code and routeing area code.
#[derive(Copy, Clone, PartialEq, Eq, Debug)]
pub struct RAI {
    pub plmn: PLMN,
    pub lac: u16,
    pub rac: u16,
}

impl RAI {
    /// The image is always 7 octets.
    pub proof fn lemma_encoding_len(&self)
        ensures
            self.encoding().len() == 7,
    {
    }

    /// The PLMN followed by `lac` and `rac`, big-endian.
    pub closed spec fn encoding(&self) -> Seq<u8> {
        self.plmn.encoding() + be16(self.lac) + be16(self.rac)
    }

    pub fn new(plmn: PLMN, lac: u16, rac: u16) -> (r: Self)
        ensures
            r == (RAI { plmn, lac, rac }),
    {
        Self { plmn, lac, rac }
    }

    /// Reads the PLMN and the two identifiers.  It fails exactly on a short
    /// buffer.
    pub fn parse(buffer: &[u8]) -> (r: Option<(Self, usize)>)
        ensures
            r is Some <==> buffer@.len() >= 7,
            r matches Some((v, n)) ==> n == 7 && v.lac == val16(buffer@, 3) && v.rac == val16(
                buffer@,
                5,
            ),
    {
        if buffer.len() < 7 {
            return None;
        }
        let (plmn, _) = PLMN::parse(buffer).unwrap();
        Some((Self { plmn, lac: read_u16_be(buffer, 3), rac: read_u16_be(buffer, 5) }, 7))
    }

    pub fn generate(&self, buffer: &mut Vec<u8>) -> (n: usize)
        ensures
            final(buffer)@ == old(buffer)@ + self.encoding(),
            n == 7,
    {
        let p = self.plmn.generate(buffer);
        write_u16_be(buffer, self.lac);
        write_u16_be(buffer, self.rac);
        assert(buffer@ =~= old(buffer)@ + self.encoding());
        7
    }

    pub fn length(&self) -> (r: u16)
        ensures
            r == self.encoding().len(),
    {
        self.plmn.length() + 4
    }
}


/// Tracking Area Identifier: the tracking area code.
#[derive(Copy, Clone, PartialEq, Eq, Debug)]
pub struct TAI {
    pub plmn: PLMN,
    pub tac: u16,
}

impl TAI {
    /// The image is always 5 octets.
    pub proof fn lemma_encoding_len(&self)
        ensures
            self.encoding().len() == 5,
    {
    }

    /// The PLMN followed by `tac`, big-endian.
    pub closed spec fn encoding(&self) -> Seq<u8> {
        self.plmn.encoding() + be16(self.tac)
    }

    pub fn new(plmn: PLMN, tac: u16) -> (r: Self)
        ensures
            r == (TAI { plmn, tac }),
    {
        Self { plmn, tac }
    }

    /// Reads the PLMN and the identifier.  It fails exactly on a short
    /// buffer.
    pub fn parse(buffer: &[u8]) -> (r: Option<(Self, usize)>)
        ensures
            r is Some <==> buffer@.len() >= 5,
            r matches Some((v, n)) ==> n == 5 && v.tac == val16(buffer@, 3),
    {
        if buffer.len() < 5 {
            return None;
        }
        let (plmn, _) = PLMN::parse(buffer).unwrap();
        Some((Self { plmn, tac: read_u16_be(buffer, 3) }, 5))
    }

    pub fn generate(&self, buffer: &mut Vec<u8>) -> (n: usize)
        ensures
            final(buffer)@ == old(buffer)@ + self.encoding(),
            n == 5,
    {
        let p = self.plmn.generate(buffer);
        write_u16_be(buffer, self.tac);
        assert(buffer@ =~= old(buffer)@ + self.encoding());
        5
    }

    pub fn length(&self) -> (r: u16)
        ensures
            r == self.encoding().len(),
    {
        self.plmn.length() + 2
    }
}


/// Location Area Identifier: the location area code.
#[derive(Copy, Clone, PartialEq, Eq, Debug)]
pub struct LAI {
    pub plmn: PLMN,
    pub lac: u16,
}

impl LAI {
    /// The image is always 5 octets.
    pub proof fn lemma_encoding_len(&self)
        ensures
            self.encoding().len() == 5,
    {
    }

    /// The PLMN followed by `lac`, big-endian.
    pub closed spec fn encoding(&self) -> Seq<u8> {
        self.plmn.encoding() + be16(self.lac)
    }

    pub fn new(plmn: PLMN, lac: u16) -> (r: Self)
        ensures
            r == (LAI { plmn, lac }),
    {
        Self { plmn, lac }
    }

    /// Reads the PLMN and the identifier.  It fails exactly on a short
    /// buffer.
    pub fn parse(buffer: &[u8]) -> (r: Option<(Self, usize)>)
        ensures
            r is Some <==> buffer@.len() >= 5,
            r matches Some((v, n)) ==> n == 5 && v.lac == val16(buffer@, 3),
    {
        if buffer.len() < 5 {
            return None;
        }
        let (plmn, _) = PLMN::parse(buffer).unwrap();
        Some((Self { plmn, lac: read_u16_be(buffer, 3) }, 5))
    }

    pub fn generate(&self, buffer: &mut Vec<u8>) -> (n: usize)
        ensures
            final(buffer)@ == old(buffer)@ + self.encoding(),
            n == 5,
    {
        let p = self.plmn.generate(buffer);
        write_u16_be(buffer, self.lac);
        assert(buffer@ =~= old(buffer)@ + self.encoding());
        5
    }

    pub fn length(&self) -> (r: u16)
        ensures
            r == self.encoding().len(),
    {
        self.plmn.length() + 2
    }
}


/// E-UTRAN Cell Global Identifier: a PLMN and a 28-bit cell identifier.
#[derive(Copy, Clone, PartialEq, Eq, Debug)]
pub struct ECGI {
    pub plmn: PLMN,
    /// At most 0xFFFFFFF.
    pub eci: u32,
}

impl ECGI {
    /// The image is always 7 octets.
    pub proof fn lemma_encoding_len(&self)
        ensures
            self.encoding().len() == 7,
    {
    }

    /// The PLMN followed by the cell identifier in four octets, big-endian.
    pub closed spec fn encoding(&self) -> Seq<u8> {
        self.plmn.encoding() + be32(self.eci)
    }

    /// The identifier fits its 28 bits.
    pub open spec fn wf(&self) -> bool {
        self.eci <= 0xFFFFFFF
    }

    /// Accepts exactly the identifiers that fit 28 bits.
    pub fn new(plmn: PLMN, eci: u32) -> (r: Result<Self, GtpError>)
        ensures
            eci > 0xFFFFFFF ==> r == Err::<Self, GtpError>(GtpError::EciTooLarge),
            eci <= 0xFFFFFFF ==> (r matches Ok(v) && v == (ECGI { plmn, eci }) && v.wf()),
    {
        if eci > 0xFFFFFFF {
            Err(GtpError::EciTooLarge)
        } else {
            Ok(Self { plmn, eci })
        }
    }

    /// Reads the PLMN and the identifier; the four spare high bits are
    /// masked off.  It fails exactly on a short buffer.
    pub fn parse(buffer: &[u8]) -> (r: Option<(Self, usize)>)
        ensures
            r is Some <==> buffer@.len() >= 7,
            r matches Some((v, n)) ==> n == 7 && v.eci == val32(buffer@, 3) % 0x10000000 && v.wf(),
    {
        if buffer.len() < 7 {
            return None;
        }
        let (plmn, _) = PLMN::parse(buffer).unwrap();
        let eci = read_u32_be(buffer, 3) % 0x10000000;
        Some((Self { plmn, eci }, 7))
    }

    pub fn generate(&self, buffer: &mut Vec<u8>) -> (n: usize)
        ensures
            final(buffer)@ == old(buffer)@ + self.encoding(),
            n == 7,
    {
        let p = self.plmn.generate(buffer);
        write_u32_be(buffer, self.eci);
        assert(buffer@ =~= old(buffer)@ + self.encoding());
        7
    }

    pub fn length(&self) -> (r: u16)
        ensures
            r == self.encoding().len(),
    {
        self.plmn.length() + 4
    }
}

/// Macro eNodeB Identifier: a PLMN and a 20-bit identifier.
#[derive(Copy, Clone, PartialEq, Eq, Debug)]
pub struct MeNBID {
    pub plmn: PLMN,
    /// At most 0xFFFFF when built through `new`; decoding admits any 24-bit
    /// value the wire carries.
    pub menbid: u32,
}

impl MeNBID {
    /// The image is always 6 octets.
    pub proof fn lemma_encoding_len(&self)
        ensures
            self.encoding().len() == 6,
    {
    }

    /// The PLMN followed by the identifier in three octets, big-endian.
    pub closed spec fn encoding(&self) -> Seq<u8> {
        self.plmn.encoding() + be24(self.menbid)
    }

    /// Accepts exactly the identifiers that fit 20 bits.
    pub fn new(plmn: PLMN, menbid: u32) -> (r: Result<Self, GtpError>)
        ensures
            menbid > 0xFFFFF ==> r == Err::<Self, GtpError>(GtpError::MenbidTooLarge),
            menbid <= 0xFFFFF ==> (r matches Ok(v) && v == (MeNBID { plmn, menbid })),
    {
        if menbid > 0xFFFFF {
            Err(GtpError::MenbidTooLarge)
        } else {
            Ok(Self { plmn, menbid })
        }
    }

    /// Reads the PLMN and the identifier.  It fails exactly on a short
    /// buffer.
    pub fn parse(buffer: &[u8]) -> (r: Option<(Self, usize)>)
        ensures
            r is Some <==> buffer@.len() >= 6,
            r matches Some((v, n)) ==> n == 6 && v.menbid == val24(buffer@, 3),
    {
        if buffer.len() < 6 {
            return None;
        }
        let (plmn, _) = PLMN::parse(buffer).unwrap();
        let menbid = read_u24_be(buffer, 3);
        Some((Self { plmn, menbid }, 6))
    }

    pub fn generate(&self, buffer: &mut Vec<u8>) -> (n: usize)
        ensures
            final(buffer)@ == old(buffer)@ + self.encoding(),
            n == 6,
    {
        let p = self.plmn.generate(buffer);
        write_u24_be(buffer, self.menbid);
        assert(buffer@ =~= old(buffer)@ + self.encoding());
        6
    }

    pub fn length(&self) -> (r: u16)
        ensures
            r == self.encoding().len(),
    {
        self.plmn.length() + 3
    }
}

/// Extended Macro eNodeB Identifier: a PLMN and a 21-bit identifier, with a
/// short form for values under 18 bits.
#[derive(Copy, Clone, PartialEq, Eq, Debug)]
pub struct EMeNBID {
    pub plmn: PLMN,
    /// At most 0x1FFFFF.
    pub menbid: u32,
}

impl EMeNBID {
    /// The image is always 6 octets.
    pub proof fn lemma_encoding_len(&self)
        ensures
            self.encoding().len() == 6,
    {
    }

    /// The PLMN, then three octets: a value under 0x3FFFF is emitted with
    /// the SMeNB bit set, anything else in the full 21-bit long form.
    pub closed spec fn encoding(&self) -> Seq<u8> {
        self.plmn.encoding() + (if self.menbid < 0x3FFFF {
            be24((self.menbid + 0x800000) as u32)
        } else {
            be24(self.menbid)
        })
    }

    /// The identifier fits its 21 bits.
    pub open spec fn wf(&self) -> bool {
        self.menbid <= 0x1FFFFF
    }

    /// Accepts exactly the identifiers that fit 21 bits.
    pub fn new(plmn: PLMN, menbid: u32) -> (r: Result<Self, GtpError>)
        ensures
            menbid > 0x1FFFFF ==> r == Err::<Self, GtpError>(GtpError::EmenbidTooLarge),
            menbid <= 0x1FFFFF ==> (r matches Ok(v) && v == (EMeNBID { plmn, menbid }) && v.wf()),
    {
        if menbid > 0x1FFFFF {
            Err(GtpError::EmenbidTooLarge)
        } else {
            Ok(Self { plmn, menbid })
        }
    }

    /// Reads the PLMN and the identifier: with the SMeNB bit set the low 18
    /// bits count, otherwise the low 21 bits.  It fails exactly on a short
    /// buffer.
    pub fn parse(buffer: &[u8]) -> (r: Option<(Self, usize)>)
        ensures
            r is Some <==> buffer@.len() >= 6,
            r matches Some((v, n)) ==> {
                &&& n == 6
                &&& (buffer@[3] / 128 == 1 ==> v.menbid == val24(buffer@, 3) % 0x40000)
                &&& (buffer@[3] / 128 != 1 ==> v.menbid == val24(buffer@, 3) % 0x200000)
                &&& v.wf()
            },
    {
        if buffer.len() < 6 {
            return None;
        }
        let (plmn, _) = PLMN::parse(buffer).unwrap();
        let smenb = buffer[3] / 128;
        let raw = read_u24_be(buffer, 3);
        let menbid: u32 = if smenb == 1 {
            raw % 0x40000
        } else {
            raw % 0x200000
        };
        Some((Self { plmn, menbid }, 6))
    }

    pub fn generate(&self, buffer: &mut Vec<u8>) -> (n: usize)
        requires
            self.wf(),
        ensures
            final(buffer)@ == old(buffer)@ + self.encoding(),
            n == 6,
    {
        let p = self.plmn.generate(buffer);
        if self.menbid < 0x3FFFF {
            write_u24_be(buffer, self.menbid + 0x800000);
        } else {
            write_u24_be(buffer, self.menbid);
        }
        assert(buffer@ =~= old(buffer)@ + self.encoding());
        6
    }

    pub fn length(&self) -> (r: u16)
        ensures
            r == self.encoding().len(),
    {
        self.plmn.length() + 3
    }
}


} // verus!
