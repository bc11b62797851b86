//! Decision logic of the IP listener: which captured Ethernet frames belong
//! to the tunnel, and the GTP datagram that encapsulates a matching frame's
//! IP payload.  The surrounding loop owns the capture channel and the UDP
//! socket; on a match it sends the built datagram to the peer and accounts
//! the send with `tx_gtp_add`.

use vstd::prelude::*;

use crate::bytes::{be16, be32, val16};
use crate::net::{IpAddress, Ipv4Address, Ipv6Address};

use super::packet::Packet;
use super::packet::messages::{Message, MessageType, MessageTraits, g_pdu};

verus! {

/// The IPv4 address held at `i` in `b`.
pub open spec fn ipv4_at(b: Seq<u8>, i: int) -> Ipv4Address {
    Ipv4Address { o0: b[i], o1: b[i + 1], o2: b[i + 2], o3: b[i + 3] }
}

/// The IPv6 address held at `i` in `b`, two octets per segment, big-endian.
pub open spec fn ipv6_at(b: Seq<u8>, i: int) -> Ipv6Address {
    Ipv6Address {
        s0: val16(b, i) as u16,
        s1: val16(b, i + 2) as u16,
        s2: val16(b, i + 4) as u16,
        s3: val16(b, i + 6) as u16,
        s4: val16(b, i + 8) as u16,
        s5: val16(b, i + 10) as u16,
        s6: val16(b, i + 12) as u16,
        s7: val16(b, i + 14) as u16,
    }
}

/// Whether a captured Ethernet frame belongs to the tunnel.  Exactly one of
/// the two filters is consulted: the source filter if it is set, else the
/// destination filter; with neither set nothing matches.  The filter address
/// must agree with the frame's IP version and equal the corresponding field
/// of the inner packet.
pub open spec fn frame_matches(
    frame: Seq<u8>,
    src: Option<IpAddress>,
    dest: Option<IpAddress>,
) -> bool {
    &&& frame.len() >= 14
    &&& if val16(frame, 12) == 0x0800 {
        &&& frame.len() >= 34
        &&& match src {
            Some(IpAddress::V4(a)) => a == ipv4_at(frame, 26int),
            Some(IpAddress::V6(_)) => false,
            None => match dest {
                Some(IpAddress::V4(a)) => a == ipv4_at(frame, 30int),
                Some(IpAddress::V6(_)) => false,
                None => false,
            },
        }
    } else if val16(frame, 12) == 0x86DD {
        &&& frame.len() >= 54
        &&& match src {
            Some(IpAddress::V6(a)) => a == ipv6_at(frame, 22int),
            Some(IpAddress::V4(_)) => false,
            None => match dest {
                Some(IpAddress::V6(a)) => a == ipv6_at(frame, 38int),
                Some(IpAddress::V4(_)) => false,
                None => false,
            },
        }
    } else {
        false
    }
}

/// Decides whether a captured frame belongs to the tunnel.
pub fn match_frame(frame: &[u8], src: Option<IpAddress>, dest: Option<IpAddress>) -> (r: bool)
    ensures
        r == frame_matches(frame@, src, dest),
{
    if frame.len() < 14 {
        return false;
    }
    let ethertype = val16_read(frame, 12);
    if ethertype == 0x0800 {
        if frame.len() < 34 {
            return false;
        }
        match src {
            Some(IpAddress::V4(a)) => {
                let s = Ipv4Address::new(frame[26], frame[27], frame[28], frame[29]);
                a == s
            },
            Some(IpAddress::V6(_)) => false,
            None => match dest {
                Some(IpAddress::V4(a)) => {
                    let d = Ipv4Address::new(frame[30], frame[31], frame[32], frame[33]);
                    a == d
                },
                Some(IpAddress::V6(_)) => false,
                None => false,
            },
        }
    } else if ethertype == 0x86DD {
        if frame.len() < 54 {
            return false;
        }
        match src {
            Some(IpAddress::V6(a)) => {
                let s = Ipv6Address::parse(frame, 22);
                proof {
                    assert(s == ipv6_at(frame@, 22));
                }
                a == s
            },
            Some(IpAddress::V4(_)) => false,
            None => match dest {
                Some(IpAddress::V6(a)) => {
                    let d = Ipv6Address::parse(frame, 38);
                    proof {
                        assert(d == ipv6_at(frame@, 38));
                    }
                    a == d
                },
                Some(IpAddress::V4(_)) => false,
                None => false,
            },
        }
    } else {
        false
    }
}

/// The GTP datagram that encapsulates an IP payload: a bare GTPv1 header of
/// type G-PDU carrying `o_teid` and declaring the payload's length, then the
/// payload itself.
pub open spec fn gpdu_datagram(payload: Seq<u8>, o_teid: u32) -> Seq<u8> {
    seq![0x30u8, 255u8] + be16(payload.len() as u16) + be32(o_teid) + payload
}

/// Builds the GTP datagram that carries `payload` to the peer.  It fails
/// exactly when the payload cannot be counted by the sixteen-bit length
/// field.
pub fn build_gpdu_datagram(payload: &[u8], o_teid: u32) -> (r: Option<Vec<u8>>)
    ensures
        r is Some <==> payload@.len() <= 0xFFFF,
        r matches Some(b) ==> b@ == gpdu_datagram(payload@, o_teid),
{
    let mut gpdu = g_pdu::Message::new();
    match gpdu.attach_packet(payload) {
        Ok(_) => {},
        Err(_) => {
            return None;
        },
    }
    let mut p = Packet::new(Message::GPDU(gpdu));
    p.header.set_teid(o_teid);
    let mut buffer: Vec<u8> = Vec::new();
    p.generate(&mut buffer);
    proof {
        assert(buffer@ =~= gpdu_datagram(payload@, o_teid));
    }
    Some(buffer)
}

/// Reads the two-octet big-endian value at `pos` of a frame.
fn val16_read(frame: &[u8], pos: usize) -> (r: u16)
    requires
        pos + 2 <= frame@.len(),
    ensures
        r == val16(frame@, pos as int),
{
    crate::bytes::read_u16_be(frame, pos)
}

} // verus!
