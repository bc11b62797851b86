use gtp::gtp_v1::packet::messages::information_elements::{
    InformationElementTraits,
    InformationElementType,
    gsn_address,
    imsi,
    nsapi,
    qos_profile,
    teid_data_i,
};
use gtp::net::{IpAddress, Ipv4Address, Ipv6Address};

#[test]
fn imsi_test_new() {
    let imsi_valid = "505013485090404";
    let imsi_ie = imsi::InformationElement::new(imsi_valid);
    match imsi_ie {
        Ok(_) => {
            assert_eq!(true, true);
        },
        Err(e) => {
            println!("{}", e.describe());
            assert_eq!(false, true)
        },
    }

    let imsi_invalid = "5f5013485090404";
    let imsi_ie = imsi::InformationElement::new(imsi_invalid);
    match imsi_ie {
        Ok(_) => {
            assert_eq!(false, true)
        },
        Err(e) => {
            assert_eq!(e.describe(), "Could not parse IMSI".to_string())
        },
    }

    let imsi_invalid = "50501348509040";
    let imsi_ie = imsi::InformationElement::new(imsi_invalid);
    match imsi_ie {
        Ok(_) => {
            assert_eq!(false, true)
        },
        Err(e) => {
            assert_eq!(e.describe(), "IMSI is not the correct number of digits".to_string())
        },
    }
}

#[test]
fn imsi_test_generate_tbcd_imsi() {
    let imsi_str = "505013485090404";
    let imsi_ie = imsi::InformationElement::new(imsi_str);
    assert_eq!(imsi_ie.is_ok(), true);
    if let Ok(i) = imsi_ie {
        assert_eq!(i.generate_tbcd_imsi(), [0x5F, 0x50, 0x10, 0x43, 0x58, 0x90, 0x40, 0x40]);
    } else {
        assert_eq!(false, true)
    }
}

#[test]
fn imsi_test_generate() {
    let mut buffer: Vec<u8> = Vec::new();
    let imsi_str = "505013485090404";
    let imsi_ie = imsi::InformationElement::new(imsi_str);
    match imsi_ie {
        Ok(i) => {
            let pos = i.generate(&mut buffer);
            assert_eq!(
                buffer[..pos],
                [
                    InformationElementType::Imsi.value(),
                    0x5F,
                    0x50,
                    0x10,
                    0x43,
                    0x58,
                    0x90,
                    0x40,
                    0x40
                ]
            );
        },
        Err(e) => {
            println!("{}", e.describe());
            assert_eq!(false, true)
        },
    }
}

#[test]
fn imsi_test_length() {
    let imsi_str = "505013485090404";
    let ie = imsi::InformationElement::new(imsi_str);
    if let Ok(i) = ie {
        assert_eq!(i.length(), 9)
    } else {
        assert_eq!(false, true)
    }
}

#[test]
fn imsi_test_message_type() {
    let imsi_str = "505013485090404";
    let ie = imsi::InformationElement::new(imsi_str);
    if let Ok(i) = ie {
        assert_eq!(i.information_element_type().value(), InformationElementType::Imsi.value())
    } else {
        assert_eq!(false, true);
    }
}

#[test]
fn imsi_test_message_parse() {
    assert_eq!(1, 1)
}

#[test]
fn test_set_get_teid() {
    let mut buffer: Vec<u8> = Vec::new();
    let teid: u32 = 0x12345678;
    let mut ie = teid_data_i::InformationElement::new(teid);
    assert_eq!(ie.teid(), 0x12345678);
    ie.set_teid(0x87654321);
    assert_eq!(ie.teid(), 0x87654321);
    let end = ie.generate(&mut buffer);
    assert_eq!(buffer[..end], [InformationElementType::TeidDataI.value(), 0x87, 0x65, 0x43, 0x21]);
}

#[test]
fn teid_data_i_test_generate() {
    let mut buffer: Vec<u8> = Vec::new();
    let teid: u32 = 0x12345678;
    let ie = teid_data_i::InformationElement::new(teid);
    let end = ie.generate(&mut buffer);
    assert_eq!(buffer[..end], [InformationElementType::TeidDataI.value(), 0x12, 0x34, 0x56, 0x78]);
}

#[test]
fn teid_data_i_test_length() {
    let ie = teid_data_i::InformationElement::new(0x12345678);
    assert_eq!(ie.length(), 5)
}

#[test]
fn teid_data_i_test_message_type() {
    let ie = teid_data_i::InformationElement::new(0x12345678);
    assert_eq!(ie.information_element_type().value(), InformationElementType::TeidDataI.value())
}

#[test]
fn teid_data_i_test_message_parse() {
    assert_eq!(1, 1)
}

#[test]
fn nsapi_test_new() {
    let invalid_nsapi: u8 = 0xFF;
    let ie = nsapi::InformationElement::new(invalid_nsapi);
    match ie {
        Ok(_) => {
            assert!(false);
        },
        Err(e) => {
            println!("{}", e.describe());
            assert!(true);
        },
    }

    let valid_nsapi: u8 = 0xF;
    let ie = nsapi::InformationElement::new(valid_nsapi);
    match ie {
        Ok(_) => {
            assert!(true);
        },
        Err(e) => {
            println!("{}", e.describe());
            assert!(false);
        },
    }
}

#[test]
fn nsapi_test_generate() {
    let mut buffer: Vec<u8> = Vec::new();
    let ie = nsapi::InformationElement::new(0xF);
    match ie {
        Ok(ie) => {
            let pos = ie.generate(&mut buffer);
            assert_eq!(buffer[..pos], [InformationElementType::Nsapi.value(), 0xF]);
        },
        Err(e) => {
            println!("{}", e.describe());
            assert!(false);
        },
    }
}

#[test]
fn nsapi_test_length() {
    let ie = nsapi::InformationElement::new(0xF);
    match ie {
        Ok(ie) => {
            assert_eq!(ie.length(), 2)
        },
        Err(e) => {
            println!("{}", e.describe());
            assert!(false);
        },
    }
}

#[test]
fn nsapi_test_message_type() {
    let ie = nsapi::InformationElement::new(0xF);
    match ie {
        Ok(ie) => {
            assert_eq!(ie.information_element_type().value(), InformationElementType::Nsapi.value())
        },
        Err(e) => {
            println!("{}", e.describe());
            assert!(false);
        },
    }
}

#[test]
fn nsapi_test_message_parse() {
    assert_eq!(1, 1)
}

#[test]
fn test_generate_ipv4() {
    let mut buffer: Vec<u8> = Vec::new();
    let address = IpAddress::V4(Ipv4Address::new(192, 168, 0, 1));
    let ie = gsn_address::InformationElement::new(address);
    let end = ie.generate(&mut buffer);
    assert_eq!(buffer[..end], [InformationElementType::GsnAddress.value(), 0, 4, 192, 168, 0, 1]);
}

#[test]
fn test_generate_ipv6() {
    let mut buffer: Vec<u8> = Vec::new();
    let address = IpAddress::V6(Ipv6Address::new(
        0xFADE, 0xDEAD, 0xBEEF, 0xCAFE, 0xFEED, 0xDEAF, 0xBEAD, 0xFACE,
    ));
    let ie = gsn_address::InformationElement::new(address);
    let end = ie.generate(&mut buffer);
    assert_eq!(
        buffer[..end],
        [
            InformationElementType::GsnAddress.value(),
            0,
            16,
            0xFA,
            0xDE,
            0xDE,
            0xAD,
            0xBE,
            0xEF,
            0xCA,
            0xFE,
            0xFE,
            0xED,
            0xDE,
            0xAF,
            0xBE,
            0xAD,
            0xFA,
            0xCE,
        ]
    );
}

#[test]
fn test_length_ipv4() {
    let address = IpAddress::V4(Ipv4Address::new(192, 168, 0, 1));
    let ie = gsn_address::InformationElement::new(address);
    assert_eq!(ie.length(), 7);
}

#[test]
fn test_length_ipv6() {
    let address = IpAddress::V6(Ipv6Address::new(
        0xFADE, 0xDEAD, 0xBEEF, 0xCAFE, 0xFEED, 0xDEAF, 0xBEAD, 0xFACE,
    ));
    let ie = gsn_address::InformationElement::new(address);
    assert_eq!(ie.length(), 19);
}

#[test]
fn gsn_address_test_message_type() {
    let address = IpAddress::V4(Ipv4Address::new(192, 168, 0, 1));
    let ie = gsn_address::InformationElement::new(address);
    assert_eq!(ie.information_element_type().value(), InformationElementType::GsnAddress.value())
}

#[test]
fn gsn_address_test_message_parse() {
    assert_eq!(1, 1)
}

fn sample_qos() -> qos_profile::InformationElement {
    qos_profile::InformationElement::new(
        8,
        qos_profile::DelayClass::BestEffort,
        qos_profile::ReliabilityClass::UnAckGTPUnAckLLCUnAckRLCUnProtectedData,
        qos_profile::PeakThroughput::UpTo1000OctetsPerSecond,
        qos_profile::PrecedenceClass::NormalPriority,
        qos_profile::MeanThroughput::BestEffort,
    )
}

#[test]
fn qos_profile_test_generate() {
    let mut buffer: Vec<u8> = Vec::new();
    let ie = sample_qos();
    let end = ie.generate(&mut buffer);
    assert_eq!(
        buffer[..end],
        [InformationElementType::QoSProfile.value(), 0, 4, 8, 0b0010_0101, 0b0001_0010, 0x1F]
    );
}

#[test]
fn qos_profile_test_length() {
    let ie = sample_qos();
    assert_eq!(ie.length(), 7);
}

#[test]
fn qos_profile_test_message_type() {
    let ie = sample_qos();
    assert_eq!(ie.information_element_type().value(), InformationElementType::QoSProfile.value())
}

#[test]
fn qos_profile_test_message_parse() {
    assert_eq!(1, 1)
}
