//! Plain-value address types that the codec carries: an IPv4 address as four
//! octets and an IPv6 address as eight 16-bit segments.

use vstd::prelude::*;

use crate::bytes::{be16, write_u16_be, read_u16_be, val16};

verus! {

/// An IPv4 address held as its four octets in network order.
#[derive(Copy, Clone, PartialEq, Eq, Structural, Debug)]
pub struct Ipv4Address {
    pub o0: u8,
    pub o1: u8,
    pub o2: u8,
    pub o3: u8,
}

impl Ipv4Address {
    /// The four octets of the address on the wire, in order.
    pub open spec fn encoding(self) -> Seq<u8> {
        seq![self.o0, self.o1, self.o2, self.o3]
    }

    pub fn new(o0: u8, o1: u8, o2: u8, o3: u8) -> (r: Self)
        ensures
            r == (Ipv4Address { o0, o1, o2, o3 }),
    {
        Ipv4Address { o0, o1, o2, o3 }
    }

    /// Appends the four octets.
    pub fn generate(&self, buffer: &mut Vec<u8>) -> (n: usize)
        ensures
            final(buffer)@ == old(buffer)@ + self.encoding(),
            n == 4,
    {
        buffer.push(self.o0);
        buffer.push(self.o1);
        buffer.push(self.o2);
        buffer.push(self.o3);
        assert(buffer@ =~= old(buffer)@ + self.encoding());
        4
    }

    /// Reads four octets at `pos`.
    pub fn parse(buffer: &[u8], pos: usize) -> (r: Self)
        requires
            pos + 4 <= buffer@.len(),
        ensures
            r.encoding() =~= buffer@.subrange(pos as int, pos + 4),
    {
        Ipv4Address { o0: buffer[pos], o1: buffer[pos + 1], o2: buffer[pos + 2], o3: buffer[pos + 3] }
    }
}

/// An IPv6 address held as its eight 16-bit segments in network order.
#[derive(Copy, Clone, PartialEq, Eq, Structural, Debug)]
pub struct Ipv6Address {
    pub s0: u16,
    pub s1: u16,
    pub s2: u16,
    pub s3: u16,
    pub s4: u16,
    pub s5: u16,
    pub s6: u16,
    pub s7: u16,
}

impl Ipv6Address {
    /// The sixteen octets of the address on the wire: each segment big-endian,
    /// in order.
    pub open spec fn encoding(self) -> Seq<u8> {
        be16(self.s0) + be16(self.s1) + be16(self.s2) + be16(self.s3) + be16(self.s4) + be16(
            self.s5,
        ) + be16(self.s6) + be16(self.s7)
    }

    pub fn new(s0: u16, s1: u16, s2: u16, s3: u16, s4: u16, s5: u16, s6: u16, s7: u16) -> (r: Self)
        ensures
            r == (Ipv6Address { s0, s1, s2, s3, s4, s5, s6, s7 }),
    {
        Ipv6Address { s0, s1, s2, s3, s4, s5, s6, s7 }
    }

    /// Appends the sixteen octets.
    pub fn generate(&self, buffer: &mut Vec<u8>) -> (n: usize)
        ensures
            final(buffer)@ == old(buffer)@ + self.encoding(),
            n == 16,
    {
        write_u16_be(buffer, self.s0);
        write_u16_be(buffer, self.s1);
        write_u16_be(buffer, self.s2);
        write_u16_be(buffer, self.s3);
        write_u16_be(buffer, self.s4);
        write_u16_be(buffer, self.s5);
        write_u16_be(buffer, self.s6);
        write_u16_be(buffer, self.s7);
        assert(buffer@ =~= old(buffer)@ + self.encoding());
        16
    }

    /// Reads sixteen octets at `pos`, two per segment, big-endian.
    pub fn parse(buffer: &[u8], pos: usize) -> (r: Self)
        requires
            pos + 16 <= buffer@.len(),
        ensures
            r.s0 == val16(buffer@, pos as int),
            r.s1 == val16(buffer@, pos + 2),
            r.s2 == val16(buffer@, pos + 4),
            r.s3 == val16(buffer@, pos + 6),
            r.s4 == val16(buffer@, pos + 8),
            r.s5 == val16(buffer@, pos + 10),
            r.s6 == val16(buffer@, pos + 12),
            r.s7 == val16(buffer@, pos + 14),
    {
        let n = buffer.len();
        Ipv6Address {
            s0: read_u16_be(buffer, pos),
            s1: read_u16_be(buffer, pos + 2),
            s2: read_u16_be(buffer, pos + 4),
            s3: read_u16_be(buffer, pos + 6),
            s4: read_u16_be(buffer, pos + 8),
            s5: read_u16_be(buffer, pos + 10),
            s6: read_u16_be(buffer, pos + 12),
            s7: read_u16_be(buffer, pos + 14),
        }
    }
}

/// Either kind of address, as the listener filters hold it.
#[derive(Copy, Clone, PartialEq, Eq, Structural, Debug)]
pub enum IpAddress {
    V4(Ipv4Address),
    V6(Ipv6Address),
}

impl IpAddress {
    pub fn is_ipv4(&self) -> (r: bool)
        ensures
            r == (self is V4),
    {
        match self {
            IpAddress::V4(_) => true,
            IpAddress::V6(_) => false,
        }
    }

    pub fn is_ipv6(&self) -> (r: bool)
        ensures
            r == (self is V6),
    {
        match self {
            IpAddress::V4(_) => false,
            IpAddress::V6(_) => true,
        }
    }
}

} // verus!
