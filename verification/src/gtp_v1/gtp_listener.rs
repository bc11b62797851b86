//! Decision logic of the GTP listener: what to do with one datagram received
//! on the GTP-U port.  The surrounding loop owns the socket; it hands every
//! datagram to `handle_datagram`, sends what the action says, and accounts
//! the send with the statistics methods named by the action's documentation.

use vstd::prelude::*;

use crate::bytes::{be32, val32};
use crate::net::Ipv4Address;

use super::listener_statistics::{Statistics, counter_add};
use super::packet::Packet;
use super::packet::header::Header;
use super::packet::messages::{Message, MessageTraits, MessageType};

verus! {

/// What the listener loop must do with a datagram.
pub enum GtpAction {
    /// Nothing: the datagram was unparseable, carried a foreign TEID, or
    /// needs no answer.
    Ignore,
    /// Answer an Echo Request: send these bytes back to the sender, then
    /// account the send with `tx_gtp_echo_response_add`.
    SendEchoResponse(Vec<u8>),
    /// Deliver a G-PDU: write the T-PDU, an IPv4 packet of this protocol, to
    /// this destination through a raw IP channel, then account the send with
    /// `tx_ip_add`.
    ForwardTPdu { t_pdu: Vec<u8>, protocol: u8, destination: Ipv4Address },
}

/// The bytes of the Echo Response datagram the listener answers with: a bare
/// GTPv1 header of that type carrying `o_teid`.
pub open spec fn echo_response_datagram(o_teid: u32) -> Seq<u8> {
    seq![0x30u8, 2u8, 0u8, 0u8] + be32(o_teid)
}

/// Decides what to do with one parsed packet, and accounts it.
///
/// A foreign TEID counts as ignored; a matching one counts as received.  An
/// Echo Request additionally counts as a received echo request and is
/// answered with an Echo Response carrying `o_teid`; a G-PDU whose T-PDU is
/// long enough to be an IPv4 packet is handed on to the host stack; anything
/// else needs no answer.
pub fn handle_packet(packet: Packet, i_teid: u32, o_teid: u32, stats: &mut Statistics) -> (r:
    GtpAction)
    ensures
        packet.header.teid != i_teid ==> r is Ignore && *final(stats) == (Statistics {
            rx_ignored_gtp: counter_add(old(stats).rx_ignored_gtp, 1),
            ..*old(stats)
        }),
        packet.header.teid == i_teid ==> {
            &&& (packet.message is EchoRequest ==> (r matches GtpAction::SendEchoResponse(b)
                && b@ == echo_response_datagram(o_teid)) && *final(stats) == (Statistics {
                rx_gtp: counter_add(old(stats).rx_gtp, 1),
                rx_gtp_echo_request: counter_add(old(stats).rx_gtp_echo_request, 1),
                ..*old(stats)
            }))
            &&& (packet.message matches Message::GPDU(m) ==> (m.t_pdu@.len() >= 20 ==> (r
                matches GtpAction::ForwardTPdu { t_pdu, protocol, destination } && t_pdu@
                == m.t_pdu@ && protocol == m.t_pdu@[9] && destination == (Ipv4Address {
                o0: m.t_pdu@[16],
                o1: m.t_pdu@[17],
                o2: m.t_pdu@[18],
                o3: m.t_pdu@[19],
            }))) && (m.t_pdu@.len() < 20 ==> r is Ignore) && *final(stats) == (Statistics {
                rx_gtp: counter_add(old(stats).rx_gtp, 1),
                ..*old(stats)
            }))
            &&& (!(packet.message is EchoRequest) && !(packet.message is GPDU) ==> r is Ignore
                && *final(stats) == (Statistics {
                rx_gtp: counter_add(old(stats).rx_gtp, 1),
                ..*old(stats)
            }))
        },
{
    if packet.header.teid() != i_teid {
        stats.rx_ignored_gtp_add(1);
        return GtpAction::Ignore;
    }
    stats.rx_gtp_add(1);
    match packet.message {
        Message::EchoRequest(_m) => {
            stats.rx_gtp_echo_request_add(1);
            let mut echo_response = Packet::new(
                Message::new(MessageType::EchoResponse),
            );
            echo_response.header.set_teid(o_teid);
            let mut buffer: Vec<u8> = Vec::new();
            echo_response.generate(&mut buffer);
            proof {
                assert(buffer@ =~= echo_response_datagram(o_teid));
            }
            GtpAction::SendEchoResponse(buffer)
        },
        Message::GPDU(m) => {
            if m.t_pdu.len() < 20 {
                return GtpAction::Ignore;
            }
            let protocol = m.t_pdu[9];
            let destination = Ipv4Address::new(
                m.t_pdu[16],
                m.t_pdu[17],
                m.t_pdu[18],
                m.t_pdu[19],
            );
            GtpAction::ForwardTPdu { t_pdu: m.t_pdu, protocol, destination }
        },
        _ => GtpAction::Ignore,
    }
}

/// Parses one datagram and carries out the per-packet decision.  A datagram
/// that does not parse as a GTPv1 packet is dropped silently, the statistics
/// untouched; otherwise the TEID, the message type octet and the counters
/// behave as `handle_packet` promises of the parsed packet.
pub fn handle_datagram(buffer: &[u8], i_teid: u32, o_teid: u32, stats: &mut Statistics) -> (r:
    GtpAction)
    ensures
        !crate::gtp_v1::packet::parse_ok(buffer@) ==> r is Ignore && *final(stats) == *old(stats),
        crate::gtp_v1::packet::parse_ok(buffer@) && val32(buffer@, 4) != i_teid ==> r is Ignore
            && *final(stats) == (Statistics {
            rx_ignored_gtp: counter_add(old(stats).rx_ignored_gtp, 1),
            ..*old(stats)
        }),
        crate::gtp_v1::packet::parse_ok(buffer@) && val32(buffer@, 4) == i_teid ==> {
            &&& (buffer@[1] == 1 ==> (r matches GtpAction::SendEchoResponse(bytes) && bytes@
                == echo_response_datagram(o_teid)) && *final(stats) == (Statistics {
                rx_gtp: counter_add(old(stats).rx_gtp, 1),
                rx_gtp_echo_request: counter_add(old(stats).rx_gtp_echo_request, 1),
                ..*old(stats)
            }))
            &&& (buffer@[1] == 255 ==> ({
                let t = buffer@.skip(crate::gtp_v1::packet::header::consumed(buffer@));
                &&& *final(stats) == (Statistics {
                    rx_gtp: counter_add(old(stats).rx_gtp, 1),
                    ..*old(stats)
                })
                &&& (t.len() >= 20 ==> (r matches GtpAction::ForwardTPdu {
                    t_pdu,
                    protocol,
                    destination,
                } && t_pdu@ == t && protocol == t[9] && destination == (Ipv4Address {
                    o0: t[16],
                    o1: t[17],
                    o2: t[18],
                    o3: t[19],
                })))
                &&& (t.len() < 20 ==> r is Ignore)
            }))
            &&& (buffer@[1] != 1 && buffer@[1] != 255 ==> r is Ignore && *final(stats)
                == (Statistics { rx_gtp: counter_add(old(stats).rx_gtp, 1), ..*old(stats) }))
        },
{
    match Packet::parse(buffer) {
        Some((p, _pos)) => handle_packet(p, i_teid, o_teid, stats),
        None => GtpAction::Ignore,
    }
}

} // verus!
