use gtp::gtp_v1::gtp_listener::{GtpAction, handle_datagram, handle_packet};
use gtp::gtp_v1::ip_listener::{build_gpdu_datagram, match_frame};
use gtp::gtp_v1::listener_statistics::Statistics;
use gtp::gtp_v1::packet::Packet;
use gtp::net::{IpAddress, Ipv4Address, Ipv6Address};
use gtp::gtp_v1::packet::header::Header;
use gtp::gtp_v1::packet::header::extension_headers::{
    ExtensionHeader,
    ExtensionHeaderTraits,
    ExtensionHeaderType,
    mbms_support_indication,
    pdcp_pdu_number,
    suspend_request,
};
use gtp::gtp_v1::packet::messages::{Message, MessageTraits, MessageType, echo_request};
use gtp::gtp_v1::packet::messages::information_elements::imsi;
use gtp::gtp_v2::packet::messages::information_elements::InformationElementTraits;
use gtp::gtp_v2::packet::messages::information_elements::user_location_information as uli;
use gtp::gtp_v2::packet::messages::information_elements::user_location_information::PLMN;
use gtp::gtp_v2::packet::messages::information_elements::bearer_qos;
use gtp::gtp_v1::packet::messages::information_elements::nsapi;
use gtp::gtp_v2::packet::messages::information_elements::msisdn;

const ICMPV4: [u8; 84] = [
    0x45, 0x00, 0x00, 0x54, 0xaf, 0x2a, 0x40, 0x00, 0x3f, 0x01, 0xba, 0xcc, 0xc0, 0xa8, 0x00,
    0xfa, 0x08, 0x08, 0x08, 0x08, 0x08, 0x00, 0xa9, 0xfe, 0x03, 0xe9, 0x00, 0x01, 0x5a, 0x5f,
    0x33, 0x5f, 0x00, 0x00, 0x00, 0x00, 0xfd, 0x85, 0x00, 0x00, 0x00, 0x00, 0x00, 0x00, 0x10,
    0x11, 0x12, 0x13, 0x14, 0x15, 0x16, 0x17, 0x18, 0x19, 0x1a, 0x1b, 0x1c, 0x1d, 0x1e, 0x1f,
    0x20, 0x21, 0x22, 0x23, 0x24, 0x25, 0x26, 0x27, 0x28, 0x29, 0x2a, 0x2b, 0x2c, 0x2d, 0x2e,
    0x2f, 0x30, 0x31, 0x32, 0x33, 0x34, 0x35, 0x36, 0x37,
];

#[test]
fn statistics_counters_accumulate() {
    let mut s = Statistics::new();
    assert_eq!(s.rx_gtp, 0);
    assert_eq!(s.rx_gtp_add(1), 1);
    assert_eq!(s.rx_gtp_add(2), 3);
    assert_eq!(s.tx_gtp_add(5), 5);
    assert_eq!(s.rx_ignored_gtp_add(1), 1);
    assert_eq!(s.rx_gtp_echo_request_add(1), 1);
    assert_eq!(s.tx_gtp_echo_request_add(1), 1);
    assert_eq!(s.rx_gtp_echo_response_add(1), 1);
    assert_eq!(s.tx_gtp_echo_response_add(1), 1);
    assert_eq!(s.rx_ip_add(4), 4);
    assert_eq!(s.tx_ip_add(4), 4);
    assert_eq!(s.rx_gtp, 3);
    assert_eq!(s.tx_gtp, 5);
}

#[test]
fn statistics_counters_saturate() {
    let mut s = Statistics::new();
    assert_eq!(s.rx_gtp_add(usize::MAX), usize::MAX);
    assert_eq!(s.rx_gtp_add(1), usize::MAX);
}

#[test]
fn echo_request_answered_with_echo_response() {
    // An Echo Request to our inbound TEID.
    let datagram = [0x30, 0x01, 0x00, 0x00, 0x00, 0x00, 0x00, 0x2A];
    let mut stats = Statistics::new();
    match handle_datagram(&datagram, 0x2A, 0x99, &mut stats) {
        GtpAction::SendEchoResponse(bytes) => {
            assert_eq!(bytes, [0x30, 0x02, 0x00, 0x00, 0x00, 0x00, 0x00, 0x99]);
        },
        _ => {
            assert!(false);
        },
    }
    assert_eq!(stats.rx_gtp, 1);
    assert_eq!(stats.rx_gtp_echo_request, 1);
    assert_eq!(stats.rx_ignored_gtp, 0);
}

#[test]
fn foreign_teid_is_ignored() {
    let datagram = [0x30, 0x01, 0x00, 0x00, 0x00, 0x00, 0x00, 0x07];
    let mut stats = Statistics::new();
    match handle_datagram(&datagram, 0x2A, 0x99, &mut stats) {
        GtpAction::Ignore => {},
        _ => {
            assert!(false);
        },
    }
    assert_eq!(stats.rx_gtp, 0);
    assert_eq!(stats.rx_ignored_gtp, 1);
}

#[test]
fn unparseable_datagram_is_dropped_silently() {
    let datagram = [0xFF, 0x01, 0x00];
    let mut stats = Statistics::new();
    match handle_datagram(&datagram, 0x2A, 0x99, &mut stats) {
        GtpAction::Ignore => {},
        _ => {
            assert!(false);
        },
    }
    assert_eq!(stats, Statistics::new());
}

#[test]
fn gpdu_is_forwarded_to_inner_destination() {
    let mut datagram: Vec<u8> = vec![0x30, 0xFF, 0x00, 0x54, 0x00, 0x00, 0x00, 0x2A];
    datagram.extend_from_slice(&ICMPV4);
    let mut stats = Statistics::new();
    match handle_datagram(&datagram, 0x2A, 0x99, &mut stats) {
        GtpAction::ForwardTPdu { t_pdu, protocol, destination } => {
            assert_eq!(t_pdu, ICMPV4.to_vec());
            assert_eq!(protocol, 0x01);
            assert_eq!(destination, Ipv4Address::new(8, 8, 8, 8));
        },
        _ => {
            assert!(false);
        },
    }
    assert_eq!(stats.rx_gtp, 1);
}

#[test]
fn other_messages_need_no_answer() {
    // An Echo Response to our inbound TEID is counted and dropped.
    let datagram = [0x30, 0x02, 0x00, 0x00, 0x00, 0x00, 0x00, 0x2A];
    let mut stats = Statistics::new();
    let (p, _) = Packet::parse(&datagram).unwrap();
    match handle_packet(p, 0x2A, 0x99, &mut stats) {
        GtpAction::Ignore => {},
        _ => {
            assert!(false);
        },
    }
    assert_eq!(stats.rx_gtp, 1);
}

fn sample_frame(ethertype: [u8; 2], payload: &[u8]) -> Vec<u8> {
    let mut frame: Vec<u8> = vec![0, 1, 2, 3, 4, 5, 6, 7, 8, 9, 10, 11];
    frame.push(ethertype[0]);
    frame.push(ethertype[1]);
    frame.extend_from_slice(payload);
    frame
}

#[test]
fn frame_with_matching_source_filter_matches() {
    let frame = sample_frame([0x08, 0x00], &ICMPV4);
    // The inner source is 192.168.0.250.
    let src = Some(IpAddress::V4(Ipv4Address::new(192, 168, 0, 250)));
    assert!(match_frame(&frame, src, None));

    let wrong = Some(IpAddress::V4(Ipv4Address::new(192, 168, 0, 1)));
    assert!(!match_frame(&frame, wrong, None));
}

#[test]
fn frame_with_matching_destination_filter_matches() {
    let frame = sample_frame([0x08, 0x00], &ICMPV4);
    // The inner destination is 8.8.8.8, consulted only with no source filter.
    let dest = Some(IpAddress::V4(Ipv4Address::new(8, 8, 8, 8)));
    assert!(match_frame(&frame, None, dest));

    let src = Some(IpAddress::V4(Ipv4Address::new(1, 2, 3, 4)));
    assert!(!match_frame(&frame, src, dest));
}

#[test]
fn frame_without_filters_is_dropped() {
    let frame = sample_frame([0x08, 0x00], &ICMPV4);
    assert!(!match_frame(&frame, None, None));
}

#[test]
fn frame_with_wrong_family_filter_is_dropped() {
    let frame = sample_frame([0x08, 0x00], &ICMPV4);
    let src = Some(IpAddress::V6(Ipv6Address::new(0, 0, 0, 0, 0, 0, 0, 1)));
    assert!(!match_frame(&frame, src, None));
}

#[test]
fn frame_with_other_ethertype_is_dropped() {
    let frame = sample_frame([0x08, 0x06], &ICMPV4);
    let src = Some(IpAddress::V4(Ipv4Address::new(192, 168, 0, 250)));
    assert!(!match_frame(&frame, src, None));
}

#[test]
fn gpdu_datagram_wraps_payload() {
    let datagram = build_gpdu_datagram(&ICMPV4, 0x87654321).unwrap();
    assert_eq!(&datagram[..8], &[0x30, 0xFF, 0x00, 0x54, 0x87, 0x65, 0x43, 0x21]);
    assert_eq!(&datagram[8..], &ICMPV4[..]);
}

#[test]
fn gpdu_datagram_refuses_an_uncountable_payload() {
    let too_big = vec![0u8; 0x10000];
    assert!(build_gpdu_datagram(&too_big, 1).is_none());
}

#[test]
fn v1_header_with_all_optionals() {
    let mut buffer: Vec<u8> = Vec::new();
    let mut h = Header::new(MessageType::EchoRequest);
    h.set_sequence_number(0x1234);
    h.set_n_pdu_number(0x12);
    h.enable_sequence_number();
    h.enable_n_pdu_number();
    let pos = h.generate(&mut buffer);
    assert_eq!(
        buffer[..pos],
        [0x33, 0x01, 0x00, 0x03, 0x00, 0x00, 0x00, 0x00, 0x12, 0x34, 0x12]
    );
}

#[test]
fn v1_echo_round_trip() {
    let mut buffer: Vec<u8> = Vec::new();
    let mut p = Packet::new(Message::EchoRequest(echo_request::Message::new()));
    let pos = p.generate(&mut buffer);
    assert_eq!(buffer[..pos], [0x30, 0x01, 0x00, 0x00, 0x00, 0x00, 0x00, 0x00]);
    if let Some((p2, n)) = Packet::parse(&buffer) {
        assert_eq!(n, 8);
        assert_eq!(p2.header.teid(), 0);
        assert_eq!(p2.message.message_type().value(), MessageType::EchoRequest.value());
        assert_eq!(p2.message.length(), 0);
    } else {
        assert!(false);
    }
}

#[test]
fn v1_extension_chain_stays_linked() {
    let mut h = Header::new(MessageType::EchoRequest);
    h.push_extension_header(ExtensionHeader::MbmsSi(mbms_support_indication::ExtensionHeader::new()));
    h.push_extension_header(ExtensionHeader::SuspendReq(suspend_request::ExtensionHeader::new()));
    let mut pdcp = pdcp_pdu_number::ExtensionHeader::new();
    pdcp.set_pdcp_pdu_number(0x1234);
    h.push_extension_header(ExtensionHeader::PdcpPduNum(pdcp));
    h.pop_extension_header();

    assert_eq!(h.extension_headers.len(), 2);
    assert_eq!(
        h.extension_headers[0].next_extension_header_type().value(),
        ExtensionHeaderType::SuspendReq.value()
    );
    assert_eq!(
        h.extension_headers[1].next_extension_header_type().value(),
        ExtensionHeaderType::NoMore.value()
    );

    h.pop_extension_header();
    h.pop_extension_header();
    assert_eq!(h.extension_headers.len(), 0);
    assert!(h.pop_extension_header().is_none());
}

#[test]
fn v1_imsi_bad_digit_is_rejected() {
    assert!(imsi::InformationElement::new("50501348509040a").is_err());
}

#[test]
fn uli_flag_byte_matches_present_substructures() {

    let ie = uli::InformationElement::new(
        None,
        None,
        Some(uli::RAI::new(PLMN::new([5, 0, 5], [0, 9, 9]), 1, 2)),
        None,
        None,
        Some(uli::LAI::new(PLMN::new([5, 0, 5], [0, 9, 9]), 3)),
        None,
        None,
        0,
    )
    .unwrap();
    let mut buffer: Vec<u8> = Vec::new();
    let pos = ie.generate(&mut buffer);
    // Only the RAI and LAI bits are set, and the records follow in canonical
    // order: RAI first, then LAI.
    assert_eq!(buffer[4], 0b0010_0100);
    assert_eq!(pos, 5 + 7 + 5);
    assert_eq!(&buffer[5..12], &[0x05, 0x95, 0x90, 0x00, 0x01, 0x00, 0x02]);
    assert_eq!(&buffer[12..17], &[0x05, 0x95, 0x90, 0x00, 0x03]);
}

#[test]
fn range_validation_rejects_out_of_bounds_values() {

    assert!(
        bearer_qos::InformationElement::new(true, 0, true, 9, 10_000_001, 0, 0, 0, 0).is_err()
    );
    assert!(uli::EMeNBID::new(PLMN::new([5, 0, 5], [0, 9, 9]), 0x200000).is_err());
    assert!(uli::ECGI::new(PLMN::new([5, 0, 5], [0, 9, 9]), 0x10000000).is_err());
    assert!(nsapi::InformationElement::new(0x10).is_err());
}

#[test]
fn tbcd_odd_length_round_trip() {
    let ie = msisdn::InformationElement::new("123", 0).unwrap();
    let mut buffer: Vec<u8> = Vec::new();
    let pos = ie.generate(&mut buffer);
    assert_eq!(buffer[..pos], [76, 0, 2, 0, 0x21, 0xF3]);
    let (back, n) = msisdn::InformationElement::parse(&buffer).unwrap();
    assert_eq!(n, 6);
    assert_eq!(back.msisdn, vec![1, 2, 3]);
}
