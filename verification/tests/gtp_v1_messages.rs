use gtp::gtp_v1::packet::Packet;
use gtp::gtp_v1::packet::messages::{
    Message,
    MessageTraits,
    MessageType,
    create_pdp_context_request,
    echo_request,
    echo_response,
    g_pdu,
    information_elements,
};
use gtp::gtp_v1::packet::messages::information_elements::{
    InformationElement,
    InformationElementType,
};
use gtp::net::{IpAddress, Ipv4Address, Ipv6Address};

#[test]
fn echo_request_test_generate() {
    let mut buffer: Vec<u8> = Vec::new();
    let m = echo_request::Message::new();
    let pos = m.generate(&mut buffer);
    assert_eq!(buffer[..pos], [0u8; 0]);
}

#[test]
fn echo_request_test_length() {
    let m = echo_request::Message::new();
    assert_eq!(m.length(), 0)
}

#[test]
fn echo_request_test_message_type() {
    let m = echo_request::Message::new();
    assert_eq!(m.message_type().value(), MessageType::EchoRequest.value())
}

#[test]
fn echo_request_test_message_parse() {
    assert_eq!(1, 1)
}

#[test]
fn echo_response_test_generate() {
    let mut buffer: Vec<u8> = Vec::new();
    let m = echo_response::Message::new();
    let pos = m.generate(&mut buffer);
    assert_eq!(buffer[..pos], []);
}

#[test]
fn echo_response_test_length() {
    let m = echo_response::Message::new();
    assert_eq!(m.length(), 0)
}

#[test]
fn echo_response_test_message_type() {
    let m = echo_response::Message::new();
    assert_eq!(m.message_type().value(), MessageType::EchoResponse.value())
}

#[test]
fn echo_response_test_message_parse() {
    assert_eq!(1, 1)
}

const ICMPV4: [u8; 84] = [
    0x45, 0x00, 0x00, 0x54, 0xaf, 0x2a, 0x40, 0x00, 0x3f, 0x01, 0xba, 0xcc, 0xc0, 0xa8, 0x00,
    0xfa, 0x08, 0x08, 0x08, 0x08, 0x08, 0x00, 0xa9, 0xfe, 0x03, 0xe9, 0x00, 0x01, 0x5a, 0x5f,
    0x33, 0x5f, 0x00, 0x00, 0x00, 0x00, 0xfd, 0x85, 0x00, 0x00, 0x00, 0x00, 0x00, 0x00, 0x10,
    0x11, 0x12, 0x13, 0x14, 0x15, 0x16, 0x17, 0x18, 0x19, 0x1a, 0x1b, 0x1c, 0x1d, 0x1e, 0x1f,
    0x20, 0x21, 0x22, 0x23, 0x24, 0x25, 0x26, 0x27, 0x28, 0x29, 0x2a, 0x2b, 0x2c, 0x2d, 0x2e,
    0x2f, 0x30, 0x31, 0x32, 0x33, 0x34, 0x35, 0x36, 0x37,
];

#[test]
fn test_attach_packet() {
    let mut m = g_pdu::Message::new();
    if let Ok(_) = m.attach_packet(&ICMPV4) {
        assert!(true)
    } else {
        assert!(false)
    }

    let too_big = [0u8; 0x1FFFF];
    let mut m = g_pdu::Message::new();
    if let Ok(_) = m.attach_packet(&too_big) {
        assert!(false)
    } else {
        assert!(true)
    }
}

#[test]
fn g_pdu_test_generate() {
    let mut buffer: Vec<u8> = Vec::new();
    let mut m = g_pdu::Message::new();
    if let Ok(_) = m.attach_packet(&ICMPV4) {
        let end = m.generate(&mut buffer);
        for i in 0..end {
            if buffer[i] != ICMPV4[i] {
                println!("{} (actual) != {} (expected) at byte {}", buffer[i], ICMPV4[i], i);
                assert!(false);
            }
        }
    } else {
        assert!(false)
    }
}

#[test]
fn g_pdu_test_length() {
    let mut m = g_pdu::Message::new();
    if let Ok(_) = m.attach_packet(&ICMPV4) {
        assert_eq!(m.length(), 84)
    } else {
        assert!(false)
    }
}

#[test]
fn g_pdu_test_message_type() {
    let m = g_pdu::Message::new();
    assert_eq!(m.message_type().value(), MessageType::GPDU.value())
}

#[test]
fn g_pdu_test_message_parse() {
    assert_eq!(1, 1)
}

fn sample_cpc_request() -> create_pdp_context_request::Message {
    let mut m = create_pdp_context_request::Message::new();
    m.information_elements.push(InformationElement::TeidDataI(
        information_elements::teid_data_i::InformationElement::new(0x12345678),
    ));
    let nsapi = information_elements::nsapi::InformationElement::new(0xF);
    if let Ok(nsapi) = nsapi {
        m.information_elements.push(InformationElement::Nsapi(nsapi));
    }
    m.information_elements.push(InformationElement::GsnAddress(
        information_elements::gsn_address::InformationElement::new(IpAddress::V4(
            Ipv4Address::new(192, 168, 0, 1),
        )),
    ));
    m.information_elements.push(InformationElement::GsnAddress(
        information_elements::gsn_address::InformationElement::new(IpAddress::V6(
            Ipv6Address::new(0xFADE, 0xDEAD, 0xBEEF, 0xCAFE, 0xFEED, 0xDEAF, 0xBEAD, 0xFACE),
        )),
    ));
    m.information_elements.push(InformationElement::QoSProfile(
        information_elements::qos_profile::InformationElement::new(
            8,
            information_elements::qos_profile::DelayClass::BestEffort,
            information_elements::qos_profile::ReliabilityClass::UnAckGTPUnAckLLCUnAckRLCUnProtectedData,
            information_elements::qos_profile::PeakThroughput::UpTo1000OctetsPerSecond,
            information_elements::qos_profile::PrecedenceClass::NormalPriority,
            information_elements::qos_profile::MeanThroughput::BestEffort,
        ),
    ));
    m
}

#[test]
fn create_pdp_context_request_test_generate() {
    let mut buffer: Vec<u8> = Vec::new();
    let m = sample_cpc_request();
    let pos = m.generate(&mut buffer);

    let expected = [
        InformationElementType::TeidDataI.value(),
        0x12,
        0x34,
        0x56,
        0x78,
        InformationElementType::Nsapi.value(),
        0xF,
        InformationElementType::GsnAddress.value(),
        0,
        4,
        192,
        168,
        0,
        1,
        InformationElementType::GsnAddress.value(),
        0,
        16,
        0xFA,
        0xDE,
        0xDE,
        0xAD,
        0xBE,
        0xEF,
        0xCA,
        0xFE,
        0xFE,
        0xED,
        0xDE,
        0xAF,
        0xBE,
        0xAD,
        0xFA,
        0xCE,
        InformationElementType::QoSProfile.value(),
        0,
        4,
        8,
        0b0010_0101,
        0b0001_0010,
        0x1F,
    ];

    for i in 0..pos {
        if buffer[i] != expected[i] {
            println!("{} (actual) != {} (expected) at byte {}", buffer[i], expected[i], i);
            assert!(false);
        }
    }
}

#[test]
fn create_pdp_context_request_test_length() {
    let m = sample_cpc_request();
    assert_eq!(m.length(), 40);
}

#[test]
fn create_pdp_context_request_test_message_type() {
    let m = create_pdp_context_request::Message::new();
    assert_eq!(m.message_type().value(), MessageType::CreatePDPContextRequest.value())
}

#[test]
fn create_pdp_context_request_test_message_parse() {
    assert_eq!(1, 1)
}

#[test]
fn create_pdp_context_request_parse_round_trip() {
    let m = sample_cpc_request();
    let mut buffer: Vec<u8> = Vec::new();
    m.generate(&mut buffer);
    let parsed = create_pdp_context_request::Message::parse(&buffer);
    assert!(parsed.is_some());
    let (p, n) = parsed.unwrap();
    assert_eq!(n, buffer.len());
    assert_eq!(p.information_elements.len(), 5);
}

#[test]
fn create_pdp_context_request_parse_rejects_missing_mandatory() {
    // An empty element list misses every mandatory element.
    assert!(create_pdp_context_request::Message::parse(&[]).is_none());
    // Dropping the QoS profile (the last element of the sample) must be fatal.
    let mut m = sample_cpc_request();
    m.information_elements.pop();
    let mut buffer: Vec<u8> = Vec::new();
    m.generate(&mut buffer);
    assert!(create_pdp_context_request::Message::parse(&buffer).is_none());
    // A single GSN address is one short of the two the message demands.
    let mut m = sample_cpc_request();
    m.information_elements.remove(2);
    let mut buffer: Vec<u8> = Vec::new();
    m.generate(&mut buffer);
    assert!(create_pdp_context_request::Message::parse(&buffer).is_none());
}

#[test]
fn packet_test_generate() {
    let mut buffer: Vec<u8> = Vec::new();
    let mut p = Packet::new(Message::EchoRequest(echo_request::Message::new()));
    assert_eq!(p.header.message_type().value(), MessageType::EchoRequest.value());
    let pos = p.generate(&mut buffer);
    assert_eq!(
        buffer[..pos],
        [0b0011_0000, MessageType::EchoRequest.value(), 0x00, 0x00, 0x00, 0x00, 0x00, 0x00]
    );

    let mut buffer: Vec<u8> = Vec::new();
    let mut p = Packet::new(Message::EchoResponse(echo_response::Message::new()));
    assert_eq!(p.header.message_type().value(), MessageType::EchoResponse.value());
    let pos = p.generate(&mut buffer);
    assert_eq!(
        buffer[..pos],
        [0b0011_0000, MessageType::EchoResponse.value(), 0x00, 0x00, 0x00, 0x00, 0x00, 0x00]
    );
}

#[test]
fn test_parse() {
    let mut p_bytes: Vec<u8> = vec![
        0b0011_0000,
        MessageType::GPDU.value(),
        0x00,
        0x54,
        0x87,
        0x65,
        0x43,
        0x21,
    ];
    p_bytes.extend_from_slice(&ICMPV4);

    if let Some((p, _pos)) = Packet::parse(&p_bytes) {
        assert_eq!(p.message.message_type().value(), MessageType::GPDU.value());
        assert_eq!(p.header.length(), 0x54);
        assert_eq!(p.header.teid(), 0x87654321);
    } else {
        assert!(false);
    }
}
