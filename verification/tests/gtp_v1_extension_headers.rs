use gtp::gtp_v1::packet::header::extension_headers::{
    ExtensionHeaderTraits,
    ExtensionHeaderType,
    long_pdcp_pdu_number,
    ms_info_change_reporting_support_indication,
    pdcp_pdu_number,
    udp_port,
};

#[test]
fn pdcp_pdu_number_test_generate() {
    let mut buffer: Vec<u8> = Vec::new();
    let eh = pdcp_pdu_number::ExtensionHeader::new();
    let pos = eh.generate(&mut buffer);
    assert_eq!(buffer[..pos], [0x01, 0x00, 0x00, ExtensionHeaderType::NoMore.value()]);
}

#[test]
fn pdcp_pdu_number_test_set_next_extension_header_type() {
    let mut buffer: Vec<u8> = Vec::new();
    let mut eh = pdcp_pdu_number::ExtensionHeader::new();
    assert_eq!(eh.next_extension_header_type().value(), ExtensionHeaderType::NoMore.value());
    eh.set_next_extension_header_type(ExtensionHeaderType::MsInfoChange);
    assert_eq!(eh.next_extension_header_type().value(), ExtensionHeaderType::MsInfoChange.value());
    let pos = eh.generate(&mut buffer);
    assert_eq!(buffer[..pos], [0x01, 0x00, 0x00, ExtensionHeaderType::MsInfoChange.value()]);
}

#[test]
fn pdcp_pdu_number_test_set_pdcp_pdu_number() {
    let mut buffer: Vec<u8> = Vec::new();
    let mut eh = pdcp_pdu_number::ExtensionHeader::new();
    eh.set_pdcp_pdu_number(0x1234);
    assert_eq!(eh.pdcp_pdu_number(), 0x1234);
    let pos = eh.generate(&mut buffer);
    assert_eq!(buffer[..pos], [0x01, 0x12, 0x34, ExtensionHeaderType::NoMore.value()]);
}

#[test]
fn pdcp_pdu_number_test_length() {
    let eh = pdcp_pdu_number::ExtensionHeader::new();
    assert_eq!(eh.length(), 4)
}

#[test]
fn pdcp_pdu_number_test_message_type() {
    let eh = pdcp_pdu_number::ExtensionHeader::new();
    assert_eq!(eh.extension_header_type().value(), ExtensionHeaderType::PdcpPduNum.value())
}

#[test]
fn pdcp_pdu_number_test_message_parse() {
    let eh_bytes = [0x01, 0x12, 0x34, ExtensionHeaderType::NoMore.value()];
    let eh = pdcp_pdu_number::ExtensionHeader::parse(&eh_bytes);
    if let Some((eh, pos)) = eh {
        assert_eq!(eh.next_extension_header_type().value(), ExtensionHeaderType::NoMore.value());
        assert_eq!(eh.pdcp_pdu_number(), 0x1234);
        assert_eq!(pos, 4)
    }
}

#[test]
fn udp_port_test_generate() {
    let mut buffer: Vec<u8> = Vec::new();
    let eh = udp_port::ExtensionHeader::new();
    let pos = eh.generate(&mut buffer);
    assert_eq!(buffer[..pos], [0x1, 0x00, 0x00, ExtensionHeaderType::NoMore.value()]);
}

#[test]
fn udp_port_test_set_next_extension_header_type() {
    let mut buffer: Vec<u8> = Vec::new();
    let mut eh = udp_port::ExtensionHeader::new();
    assert_eq!(eh.next_extension_header_type().value(), ExtensionHeaderType::NoMore.value());
    eh.set_next_extension_header_type(ExtensionHeaderType::MsInfoChange);
    assert_eq!(eh.next_extension_header_type().value(), ExtensionHeaderType::MsInfoChange.value());
    let pos = eh.generate(&mut buffer);
    assert_eq!(buffer[..pos], [0x1, 0x00, 0x00, ExtensionHeaderType::MsInfoChange.value()]);
}

#[test]
fn test_set_udp_port_number() {
    let mut buffer: Vec<u8> = Vec::new();
    let mut eh = udp_port::ExtensionHeader::new();
    eh.set_udp_port_number(0x1234);
    assert_eq!(eh.udp_port_number(), 0x1234);
    let pos = eh.generate(&mut buffer);
    assert_eq!(buffer[..pos], [0x1, 0x12, 0x34, ExtensionHeaderType::NoMore.value()]);
}

#[test]
fn udp_port_test_length() {
    let eh = udp_port::ExtensionHeader::new();
    assert_eq!(eh.length(), 4)
}

#[test]
fn udp_port_test_message_type() {
    let eh = udp_port::ExtensionHeader::new();
    assert_eq!(eh.extension_header_type().value(), ExtensionHeaderType::UDPPort.value())
}

#[test]
fn udp_port_test_message_parse() {
    let eh_bytes = [0x01, 0x12, 0x34, ExtensionHeaderType::NoMore.value()];
    let eh = udp_port::ExtensionHeader::parse(&eh_bytes);
    if let Some((eh, pos)) = eh {
        assert_eq!(eh.next_extension_header_type().value(), ExtensionHeaderType::NoMore.value());
        assert_eq!(eh.udp_port_number(), 0x1234);
        assert_eq!(pos, 4)
    }
}

#[test]
fn long_pdcp_pdu_number_test_generate() {
    let mut buffer: Vec<u8> = Vec::new();
    let eh = long_pdcp_pdu_number::ExtensionHeader::new();
    let pos = eh.generate(&mut buffer);
    assert_eq!(
        buffer[..pos],
        [0x02, 0x00, 0x00, 0x00, 0x00, 0x00, 0x00, ExtensionHeaderType::NoMore.value()]
    );
}

#[test]
fn long_pdcp_pdu_number_test_set_next_extension_header_type() {
    let mut buffer: Vec<u8> = Vec::new();
    let mut eh = long_pdcp_pdu_number::ExtensionHeader::new();
    assert_eq!(eh.next_extension_header_type().value(), ExtensionHeaderType::NoMore.value());
    eh.set_next_extension_header_type(ExtensionHeaderType::MsInfoChange);
    assert_eq!(eh.next_extension_header_type().value(), ExtensionHeaderType::MsInfoChange.value());
    let pos = eh.generate(&mut buffer);
    assert_eq!(
        buffer[..pos],
        [0x02, 0x00, 0x00, 0x00, 0x00, 0x00, 0x00, ExtensionHeaderType::MsInfoChange.value()]
    );
}

#[test]
fn long_pdcp_pdu_number_test_set_pdcp_pdu_number() {
    let mut buffer: Vec<u8> = Vec::new();
    let mut eh = long_pdcp_pdu_number::ExtensionHeader::new();
    if let Ok(_) = eh.set_pdcp_pdu_number(0x3FFFF) {
        assert_eq!(eh.pdcp_pdu_number(), 0x3FFFF);
        let pos = eh.generate(&mut buffer);
        assert_eq!(
            buffer[..pos],
            [0x02, 0x03, 0xFF, 0xFF, 0x00, 0x00, 0x00, ExtensionHeaderType::NoMore.value()]
        );
    } else {
        assert!(false);
    }
    if let Ok(_) = eh.set_pdcp_pdu_number(0xFFFFF) {
        assert!(false);
    } else {
        assert!(true)
    }
    if let Ok(_) = eh.set_pdcp_pdu_number(0x1234) {
        assert_eq!(eh.pdcp_pdu_number(), 0x1234);
        let mut buffer: Vec<u8> = Vec::new();
        let pos = eh.generate(&mut buffer);
        assert_eq!(
            buffer[..pos],
            [0x02, 0x00, 0x12, 0x34, 0x00, 0x00, 0x00, ExtensionHeaderType::NoMore.value()]
        );
    } else {
        assert!(false);
    }
}

#[test]
fn long_pdcp_pdu_number_test_length() {
    let eh = long_pdcp_pdu_number::ExtensionHeader::new();
    assert_eq!(eh.length(), 8)
}

#[test]
fn long_pdcp_pdu_number_test_message_type() {
    let eh = long_pdcp_pdu_number::ExtensionHeader::new();
    assert_eq!(eh.extension_header_type().value(), ExtensionHeaderType::LongPdcpPduNumber.value())
}

#[test]
fn long_pdcp_pdu_number_test_message_parse() {
    let eh_bytes = [0x02, 0x01, 0x12, 0x34, 0x00, 0x00, 0x00, ExtensionHeaderType::MsInfoChange.value()];
    let eh = long_pdcp_pdu_number::ExtensionHeader::parse(&eh_bytes);
    if let Some((eh, pos)) = eh {
        assert_eq!(eh.next_extension_header_type().value(), ExtensionHeaderType::MsInfoChange.value());
        assert_eq!(eh.pdcp_pdu_number(), 0x11234);
        assert_eq!(pos, 8);
    }
}

#[test]
fn ms_info_change_reporting_support_indication_test_generate() {
    let mut buffer: Vec<u8> = Vec::new();
    let eh = ms_info_change_reporting_support_indication::ExtensionHeader::new();
    let pos = eh.generate(&mut buffer);
    assert_eq!(buffer[..pos], [0x01, 0xFF, 0xFF, ExtensionHeaderType::NoMore.value()]);
}

#[test]
fn ms_info_change_reporting_support_indication_test_set_next_extension_header_type() {
    let mut buffer: Vec<u8> = Vec::new();
    let mut eh = ms_info_change_reporting_support_indication::ExtensionHeader::new();
    assert_eq!(eh.next_extension_header_type().value(), ExtensionHeaderType::NoMore.value());
    eh.set_next_extension_header_type(ExtensionHeaderType::PdcpPduNum);
    assert_eq!(eh.next_extension_header_type().value(), ExtensionHeaderType::PdcpPduNum.value());
    let pos = eh.generate(&mut buffer);
    assert_eq!(buffer[..pos], [0x01, 0xFF, 0xFF, ExtensionHeaderType::PdcpPduNum.value()]);
}

#[test]
fn ms_info_change_reporting_support_indication_test_length() {
    let eh = ms_info_change_reporting_support_indication::ExtensionHeader::new();
    assert_eq!(eh.length(), 4)
}

#[test]
fn ms_info_change_reporting_support_indication_test_message_type() {
    let eh = ms_info_change_reporting_support_indication::ExtensionHeader::new();
    assert_eq!(eh.extension_header_type().value(), ExtensionHeaderType::MsInfoChange.value())
}

#[test]
fn ms_info_change_reporting_support_indication_test_message_parse() {
    let eh_bytes = [0x01, 0xFF, 0xFF, ExtensionHeaderType::NoMore.value()];
    let eh = ms_info_change_reporting_support_indication::ExtensionHeader::parse(&eh_bytes);
    if let Some((eh, pos)) = eh {
        assert_eq!(eh.next_extension_header_type().value(), ExtensionHeaderType::NoMore.value());
        assert_eq!(pos, 4)
    }
}
