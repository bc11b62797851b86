use gtp::gtp_v1::packet::header::Header;
use gtp::gtp_v1::packet::header::extension_headers::{
    ExtensionHeader,
    ExtensionHeaderTraits,
    ExtensionHeaderType,
    mbms_support_indication,
    pdcp_pdu_number,
    suspend_request,
};
use gtp::gtp_v1::packet::messages::MessageType;

#[test]
fn header_test_message_type() {
    let h = Header::new(MessageType::EchoRequest);
    assert_eq!(h.message_type().value(), MessageType::EchoRequest.value());

    let h = Header::new(MessageType::EchoResponse);
    assert_eq!(h.message_type().value(), MessageType::EchoResponse.value());
}

#[test]
fn header_test_generate_simple() {
    let mut buffer: Vec<u8> = Vec::new();
    let h = Header::new(MessageType::EchoRequest);
    let pos = h.generate(&mut buffer);
    assert_eq!(
        buffer[..pos],
        [0b0011_0000, MessageType::EchoRequest.value(), 0x00, 0x00, 0x00, 0x00, 0x00, 0x00]
    );
}

#[test]
fn header_test_teid() {
    let mut buffer: Vec<u8> = Vec::new();
    let mut h = Header::new(MessageType::EchoRequest);
    h.set_teid(0x12345678);
    assert_eq!(h.teid(), 0x12345678);
    let pos = h.generate(&mut buffer);
    assert_eq!(
        buffer[..pos],
        [0b0011_0000, MessageType::EchoRequest.value(), 0x00, 0x00, 0x12, 0x34, 0x56, 0x78]
    );
}

#[test]
fn header_test_sequence_number() {
    let mut buffer: Vec<u8> = Vec::new();
    let mut h = Header::new(MessageType::EchoRequest);
    h.set_sequence_number(0x1234);
    assert_eq!(h.sequence_number(), 0x1234);
    let pos = h.generate(&mut buffer);
    assert_eq!(
        buffer[..pos],
        [0b0011_0000, MessageType::EchoRequest.value(), 0x00, 0x00, 0x00, 0x00, 0x00, 0x00]
    );

    h.enable_sequence_number();
    assert_eq!(h.length(), 2);
    let mut buffer: Vec<u8> = Vec::new();
    let pos = h.generate(&mut buffer);
    assert_eq!(
        buffer[..pos],
        [0b0011_0010, MessageType::EchoRequest.value(), 0x00, 0x02, 0x00, 0x00, 0x00, 0x00, 0x12, 0x34]
    );

    h.disable_sequence_number();
    let mut buffer: Vec<u8> = Vec::new();
    let pos = h.generate(&mut buffer);
    assert_eq!(
        buffer[..pos],
        [0b0011_0000, MessageType::EchoRequest.value(), 0x00, 0x00, 0x00, 0x00, 0x00, 0x00]
    );
}

#[test]
fn test_n_pdu_number() {
    let mut buffer: Vec<u8> = Vec::new();
    let mut h = Header::new(MessageType::EchoRequest);
    h.set_n_pdu_number(0x12);
    assert_eq!(h.n_pdu_number(), 0x12);
    let pos = h.generate(&mut buffer);
    assert_eq!(
        buffer[..pos],
        [0b0011_0000, MessageType::EchoRequest.value(), 0x00, 0x00, 0x00, 0x00, 0x00, 0x00]
    );

    h.enable_n_pdu_number();
    assert_eq!(h.length(), 1);
    let mut buffer: Vec<u8> = Vec::new();
    let pos = h.generate(&mut buffer);
    assert_eq!(
        buffer[..pos],
        [0b0011_0001, MessageType::EchoRequest.value(), 0x00, 0x01, 0x00, 0x00, 0x00, 0x00, 0x12]
    );

    h.disable_n_pdu_number();
    let mut buffer: Vec<u8> = Vec::new();
    let pos = h.generate(&mut buffer);
    assert_eq!(
        buffer[..pos],
        [0b0011_0000, MessageType::EchoRequest.value(), 0x00, 0x00, 0x00, 0x00, 0x00, 0x00]
    );
}

#[test]
fn test_extension_headers() {
    let mut buffer: Vec<u8> = Vec::new();
    let mut h = Header::new(MessageType::EchoRequest);

    let mbms_si = ExtensionHeader::MbmsSi(mbms_support_indication::ExtensionHeader::new());
    h.push_extension_header(mbms_si);
    let pos = h.generate(&mut buffer);
    assert_eq!(
        buffer[..pos],
        [
            0b0011_0100,
            MessageType::EchoRequest.value(),
            0x00,
            0x05,
            0x00,
            0x00,
            0x00,
            0x00,
            ExtensionHeaderType::MbmsSi.value(),
            0x01,
            0xFF,
            0xFF,
            ExtensionHeaderType::NoMore.value()
        ]
    );

    let s_req = ExtensionHeader::SuspendReq(suspend_request::ExtensionHeader::new());
    h.push_extension_header(s_req);
    let mut buffer: Vec<u8> = Vec::new();
    let pos = h.generate(&mut buffer);
    assert_eq!(
        buffer[..pos],
        [
            0b0011_0100,
            MessageType::EchoRequest.value(),
            0x00,
            0x09,
            0x00,
            0x00,
            0x00,
            0x00,
            ExtensionHeaderType::MbmsSi.value(),
            0x01,
            0xFF,
            0xFF,
            ExtensionHeaderType::SuspendReq.value(),
            0x01,
            0xFF,
            0xFF,
            ExtensionHeaderType::NoMore.value()
        ]
    );

    let mut pdcp = pdcp_pdu_number::ExtensionHeader::new();
    pdcp.set_pdcp_pdu_number(0x1234);
    h.push_extension_header(ExtensionHeader::PdcpPduNum(pdcp));
    let mut buffer: Vec<u8> = Vec::new();
    let pos = h.generate(&mut buffer);
    assert_eq!(
        buffer[..pos],
        [
            0b0011_0100,
            MessageType::EchoRequest.value(),
            0x00,
            0x0d,
            0x00,
            0x00,
            0x00,
            0x00,
            ExtensionHeaderType::MbmsSi.value(),
            0x01,
            0xFF,
            0xFF,
            ExtensionHeaderType::SuspendReq.value(),
            0x01,
            0xFF,
            0xFF,
            ExtensionHeaderType::PdcpPduNum.value(),
            0x01,
            0x12,
            0x34,
            ExtensionHeaderType::NoMore.value()
        ]
    );

    h.pop_extension_header();
    let mut buffer: Vec<u8> = Vec::new();
    let pos = h.generate(&mut buffer);
    assert_eq!(
        buffer[..pos],
        [
            0b0011_0100,
            MessageType::EchoRequest.value(),
            0x00,
            0x09,
            0x00,
            0x00,
            0x00,
            0x00,
            ExtensionHeaderType::MbmsSi.value(),
            0x01,
            0xFF,
            0xFF,
            ExtensionHeaderType::SuspendReq.value(),
            0x01,
            0xFF,
            0xFF,
            ExtensionHeaderType::NoMore.value()
        ]
    );
}

#[test]
fn header_test_length() {
    let mut buffer: Vec<u8> = Vec::new();
    let mut h = Header::new(MessageType::EchoRequest);
    h.set_payload_length(0x1234);
    let pos = h.generate(&mut buffer);
    assert_eq!(
        buffer[..pos],
        [0b0011_0000, MessageType::EchoRequest.value(), 0x12, 0x34, 0x00, 0x00, 0x00, 0x00]
    );

    h.set_sequence_number(0x4567);
    h.enable_sequence_number();
    assert_eq!(h.length(), 0x1234 + 2);
    let mut buffer: Vec<u8> = Vec::new();
    let pos = h.generate(&mut buffer);
    assert_eq!(
        buffer[..pos],
        [0b0011_0010, MessageType::EchoRequest.value(), 0x12, 0x36, 0x00, 0x00, 0x00, 0x00, 0x45, 0x67]
    );

    h.set_n_pdu_number(0x12);
    h.enable_n_pdu_number();
    assert_eq!(h.length(), 0x1234 + 2 + 1);
    let mut buffer: Vec<u8> = Vec::new();
    let pos = h.generate(&mut buffer);
    assert_eq!(
        buffer[..pos],
        [
            0b0011_0011,
            MessageType::EchoRequest.value(),
            0x12,
            0x37,
            0x00,
            0x00,
            0x00,
            0x00,
            0x45,
            0x67,
            0x12
        ]
    );
}

#[test]
fn test_generate_everything() {
    let mut buffer: Vec<u8> = Vec::new();
    let mut h = Header::new(MessageType::EchoRequest);
    h.set_sequence_number(0x1234);
    h.set_n_pdu_number(0x12);
    h.enable_sequence_number();
    h.enable_n_pdu_number();
    assert_eq!(h.length(), 3);
    let pos = h.generate(&mut buffer);
    assert_eq!(
        buffer[..pos],
        [
            0b0011_0011,
            MessageType::EchoRequest.value(),
            0x00,
            0x03,
            0x00,
            0x00,
            0x00,
            0x00,
            0x12,
            0x34,
            0x12
        ]
    );
}

#[test]
fn header_test_message_parse() {
    let header_bytes = [
        0b0011_0100,
        MessageType::EchoRequest.value(),
        0x00,
        0x0d,
        0x12,
        0x34,
        0x56,
        0x78,
        ExtensionHeaderType::MbmsSi.value(),
        0x01,
        0xFF,
        0xFF,
        ExtensionHeaderType::SuspendReq.value(),
        0x01,
        0xFF,
        0xFF,
        ExtensionHeaderType::PdcpPduNum.value(),
        0x01,
        0x12,
        0x34,
        ExtensionHeaderType::NoMore.value(),
    ];

    let h = Header::parse(&header_bytes);
    if let Some((h, _length, pos)) = h {
        assert_eq!(h.message_type().value(), MessageType::EchoRequest.value());
        assert_eq!(h.length(), 0x0d);
        assert_eq!(h.teid(), 0x12345678);
        assert_eq!(h.extension_headers.len(), 3);
        assert_eq!(h.extension_headers[0].extension_header_type().value(), ExtensionHeaderType::MbmsSi.value());
        assert_eq!(h.extension_headers[1].extension_header_type().value(), ExtensionHeaderType::SuspendReq.value());
        assert_eq!(h.extension_headers[2].extension_header_type().value(), ExtensionHeaderType::PdcpPduNum.value());
        assert_eq!(pos, 21);
    } else {
        assert!(false)
    }
}
