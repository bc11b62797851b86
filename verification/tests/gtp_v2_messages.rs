use gtp::gtp_v2::packet::Packet;
use gtp::gtp_v2::packet::messages::{
    Message,
    MessageTraits,
    MessageType,
    create_session_request,
    create_session_response,
    echo_request,
    echo_response,
};
use gtp::gtp_v2::packet::messages::information_elements::{
    InformationElementTraits,
    InformationElementType,
    apn,
    bearer_context,
    bearer_qos,
    cause,
    ebi,
    f_teid,
    rat_type,
    recovery,
};
use gtp::net::Ipv4Address;

#[test]
fn v2_echo_response_test_generate() {
    let mut buffer: Vec<u8> = Vec::new();
    let m = echo_response::Message::new(recovery::InformationElement::new(0xFF, 0).unwrap());
    let pos = m.generate(&mut buffer);
    assert_eq!(buffer[..pos], [InformationElementType::Recovery.value(), 0, 1, 0, 0xFF]);
}

#[test]
fn v2_echo_response_test_length() {
    let m = echo_response::Message::new(recovery::InformationElement::new(0xAB, 0).unwrap());
    assert_eq!(m.length(), 5)
}

#[test]
fn v2_echo_response_test_message_type() {
    let m = echo_response::Message::new(recovery::InformationElement::new(0xCD, 0).unwrap());
    assert_eq!(m.message_type().value(), MessageType::EchoResponse.value())
}

#[test]
fn v2_echo_response_test_message_parse() {
    let message_bytes = [InformationElementType::Recovery.value(), 0, 1, 0, 0xAB];
    if let Some((m, _pos)) = echo_response::Message::parse(&message_bytes) {
        assert_eq!(m.recovery.restart_counter, 0xAB);
    }

    let message_bytes = [
        InformationElementType::Recovery.value(),
        0,
        1,
        0,
        0xAB,
        0xFF,
        0,
        1,
        0xF,
        0xFF,
    ];
    if let Some((m, _pos)) = echo_response::Message::parse(&message_bytes) {
        assert_eq!(m.recovery.restart_counter, 0xAB);
    } else {
        assert!(false);
    }
}

#[test]
fn v2_echo_request_round_trip() {
    let mut buffer: Vec<u8> = Vec::new();
    let m = echo_request::Message::new(recovery::InformationElement::new(0x17, 3).unwrap());
    let pos = m.generate(&mut buffer);
    assert_eq!(pos, 5);
    if let Some((m2, n)) = echo_request::Message::parse(&buffer) {
        assert_eq!(n, 5);
        assert_eq!(m2.recovery.restart_counter, 0x17);
        assert_eq!(m2.recovery.instance, 3);
    } else {
        assert!(false);
    }
}

fn sample_csr() -> create_session_request::Message {
    let mut bc = bearer_context::InformationElement::new(
        ebi::InformationElement::new(7, 0).unwrap(),
        bearer_qos::InformationElement::new(false, 9, true, 7, 1_000_000, 1_000_000, 0, 0, 0)
            .unwrap(),
        0,
    )
    .unwrap();
    bc.set_s1_u_enodeb_f_teid(0x12345678, Some(Ipv4Address::new(10, 0, 1, 3)), None);
    create_session_request::Message::new(
        rat_type::InformationElement::new(rat_type::RATType::UTRAN, 0).unwrap(),
        f_teid::InformationElement::new(
            f_teid::InterfaceType::S11MmeGtpC,
            0x87654321,
            Some(Ipv4Address::new(10, 0, 0, 1)),
            None,
            0,
        )
        .unwrap(),
        bc,
        apn::InformationElement::new("awesome.apn.mnc099.mcc505.gprs", 0).unwrap(),
    )
}

#[test]
fn create_session_request_test_message_type() {
    let m = sample_csr();
    assert_eq!(m.message_type().value(), MessageType::CreateSessionRequest.value());
}

#[test]
fn create_session_request_test_length() {
    let m = sample_csr();
    // RAT type (5) + sender F-TEID (13) + APN (35) + one bearer context
    // holding an EBI (5), an S1-U eNodeB F-TEID (13) and a bearer QoS (26)
    // under its own four-octet header (48).
    assert_eq!(m.length(), 5 + 13 + 35 + 48);
}

#[test]
fn create_session_request_test_generate() {
    let mut buffer: Vec<u8> = Vec::new();
    let m = sample_csr();
    let pos = m.generate(&mut buffer);
    assert_eq!(pos, m.length() as usize);
    // The RAT type element leads.
    assert_eq!(buffer[..5], [InformationElementType::RATType.value(), 0, 1, 0, 1]);
}

#[test]
fn create_session_request_test_message_parse() {
    let mut buffer: Vec<u8> = Vec::new();
    let m = sample_csr();
    let pos = m.generate(&mut buffer);
    if let Some((m2, n)) = create_session_request::Message::parse(&buffer) {
        assert_eq!(n, pos);
        assert_eq!(m2.rat_type.rat_type, rat_type::RATType::UTRAN);
        assert_eq!(m2.sender_f_teid_for_control_plane.teid, 0x87654321);
        assert_eq!(m2.apn.apn, b"awesome.apn.mnc099.mcc505.gprs".to_vec());
        assert_eq!(m2.bearer_contexts_to_be_created.len(), 1);
        assert_eq!(m2.bearer_contexts_to_be_created[0].eps_bearer_id.eps_bearer_id, 7);
        assert_eq!(m2.bearer_contexts_to_be_removed.len(), 0);
        assert!(m2.imsi.is_none());
    } else {
        assert!(false);
    }
}

fn sample_csresp() -> create_session_response::Message {
    let mut m = create_session_response::Message::new(
        cause::InformationElement::new(
            cause::CauseCode::RequestAccepted,
            cause::CauseSource::LocalNode,
            false,
            false,
            None,
            0,
        )
        .unwrap(),
        vec![bearer_context::InformationElement::new(
            ebi::InformationElement::new(7, 0).unwrap(),
            bearer_qos::InformationElement::new(
                false, 9, true, 7, 10_000_000, 10_000_000, 0, 0, 0,
            )
            .unwrap(),
            0,
        )
        .unwrap()],
    );
    m.set_sender_f_teid_for_control_plane(0x87654321, Some(Ipv4Address::new(10, 0, 0, 2)), None);
    m.set_pgw_s5_s8_for_control_plane(0x12345678, Some(Ipv4Address::new(10, 0, 0, 3)), None);
    m
}

#[test]
fn create_session_response_test_message_type() {
    let m = sample_csresp();
    assert_eq!(m.message_type().value(), MessageType::CreateSessionResponse.value());
}

#[test]
fn create_session_response_test_length() {
    let m = sample_csresp();
    // Cause (6) + two F-TEIDs (13 each) + one bearer context of 35.
    assert_eq!(m.length(), 6 + 13 + 13 + 35);
}

#[test]
fn create_session_response_test_generate() {
    let mut buffer: Vec<u8> = Vec::new();
    let m = sample_csresp();
    let pos = m.generate(&mut buffer);
    assert_eq!(pos, m.length() as usize);
    // The cause element leads.
    assert_eq!(
        buffer[..6],
        [
            InformationElementType::Cause.value(),
            0,
            2,
            0,
            cause::CauseCode::RequestAccepted.value(),
            0
        ]
    );
}

#[test]
fn create_session_response_test_message_parse() {
    let mut buffer: Vec<u8> = Vec::new();
    let m = sample_csresp();
    let pos = m.generate(&mut buffer);
    if let Some((m2, n)) = create_session_response::Message::parse(&buffer) {
        assert_eq!(n, pos);
        assert_eq!(m2.cause.cause_code, cause::CauseCode::RequestAccepted);
        assert_eq!(m2.bearer_contexts_created.len(), 1);
        if let Some(f) = &m2.sender_f_teid_for_control_plane {
            assert_eq!(f.teid, 0x87654321);
        } else {
            assert!(false);
        }
        if let Some(f) = &m2.pgw_s5_s8_for_control_plane {
            assert_eq!(f.teid, 0x12345678);
        } else {
            assert!(false);
        }
    } else {
        assert!(false);
    }
}

#[test]
fn v2_packet_test_generate() {
    let mut buffer: Vec<u8> = Vec::new();
    let mut p = Packet::new(Message::EchoRequest(echo_request::Message::new(
        recovery::InformationElement::new(0xAB, 0).unwrap(),
    )));
    assert_eq!(p.header.message_type().value(), MessageType::EchoRequest.value());
    let pos = p.generate(&mut buffer);
    assert_eq!(
        buffer[..pos],
        [
            0b0100_0000,
            MessageType::EchoRequest.value(),
            0,
            9,
            0x00,
            0x00,
            0x00,
            0x00,
            InformationElementType::Recovery.value(),
            0,
            1,
            0,
            0xAB
        ]
    );

    let mut buffer: Vec<u8> = Vec::new();
    let mut p = Packet::new(Message::EchoResponse(echo_response::Message::new(
        recovery::InformationElement::new(0xCD, 0).unwrap(),
    )));
    assert_eq!(p.header.message_type().value(), MessageType::EchoResponse.value());
    let pos = p.generate(&mut buffer);
    assert_eq!(
        buffer[..pos],
        [
            0b0100_0000,
            MessageType::EchoResponse.value(),
            0,
            9,
            0x00,
            0x00,
            0x00,
            0x00,
            InformationElementType::Recovery.value(),
            0,
            1,
            0,
            0xCD
        ]
    );
}

#[test]
fn v2_packet_round_trip() {
    let mut buffer: Vec<u8> = Vec::new();
    let mut p = Packet::new(Message::EchoRequest(echo_request::Message::new(
        recovery::InformationElement::new(0xAB, 0).unwrap(),
    )));
    p.header.enable_teid();
    p.header.set_teid(0x12345678);
    let pos = p.generate(&mut buffer);
    if let Some((p2, n)) = Packet::parse(&buffer) {
        assert_eq!(n, pos);
        assert_eq!(p2.header.teid(), 0x12345678);
        if let Message::EchoRequest(m) = p2.message {
            assert_eq!(m.recovery.restart_counter, 0xAB);
        } else {
            assert!(false);
        }
    } else {
        assert!(false);
    }
}

#[test]
fn v2_message_type_for_create_session_response_octet() {
    // Octet 33 names the Create Session Response.
    assert_eq!(MessageType::try_from_u8(33), Some(MessageType::CreateSessionResponse));
    assert_eq!(MessageType::try_from_u8(32), Some(MessageType::CreateSessionRequest));
}
