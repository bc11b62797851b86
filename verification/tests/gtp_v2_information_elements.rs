use gtp::gtp_v2::packet::messages::information_elements::{
    InformationElementTraits,
    InformationElementType,
    ambr,
    apn,
    apn_restriction,
    bearer_context,
    bearer_qos,
    cause,
    charging_characteristics,
    ebi,
    f_teid,
    imsi,
    mei,
    msisdn,
    pdn_address_allocation,
    pdn_type,
    rat_type,
    recovery,
    selection_mode,
    serving_network,
    ue_time_zone,
};
use gtp::gtp_v2::packet::messages::information_elements::user_location_information as uli;
use gtp::gtp_v2::packet::messages::information_elements::user_location_information::PLMN;
use gtp::net::{Ipv4Address, Ipv6Address};

#[test]
fn recovery_test_generate() {
    let mut buffer: Vec<u8> = Vec::new();
    let ie = recovery::InformationElement::new(0xFF, 0).unwrap();
    let pos = ie.generate(&mut buffer);
    assert_eq!(buffer[..pos], [InformationElementType::Recovery.value(), 0, 1, 0, 0xFF]);

    let mut buffer: Vec<u8> = Vec::new();
    let ie = recovery::InformationElement::new(0xF, 0).unwrap();
    let pos = ie.generate(&mut buffer);
    assert_eq!(buffer[..pos], [InformationElementType::Recovery.value(), 0, 1, 0, 0x0F]);
}

#[test]
fn recovery_test_length() {
    let ie = recovery::InformationElement::new(0xF, 0).unwrap();
    assert_eq!(ie.length(), 5);
}

#[test]
fn recovery_test_message_type() {
    let ie = recovery::InformationElement::new(0x00, 0).unwrap();
    assert_eq!(ie.information_element_type().value(), InformationElementType::Recovery.value())
}

#[test]
fn recovery_test_message_parse() {
    let ie_bytes = [InformationElementType::Recovery.value(), 0, 1, 0, 0xAB];
    if let Some((ie, _pos)) = recovery::InformationElement::parse(&ie_bytes) {
        assert_eq!(ie.restart_counter, 0xAB);
    } else {
        assert!(false);
    }
}

#[test]
fn ebi_test_generate() {
    let mut buffer: Vec<u8> = Vec::new();
    if let Ok(ie) = ebi::InformationElement::new(0xF, 0) {
        let pos = ie.generate(&mut buffer);
        assert_eq!(buffer[..pos], [InformationElementType::EBI.value(), 0, 1, 0, 0xF]);
    } else {
        assert!(false);
    }

    if let Ok(_) = ebi::InformationElement::new(0xFF, 0) {
        assert!(false);
    } else {
        assert!(true);
    }
}

#[test]
fn ebi_test_length() {
    if let Ok(ie) = ebi::InformationElement::new(0x2, 0) {
        assert_eq!(ie.length(), 5);
    } else {
        assert!(false);
    }
}

#[test]
fn ebi_test_message_type() {
    if let Ok(ie) = ebi::InformationElement::new(0x2, 0) {
        assert_eq!(ie.information_element_type().value(), InformationElementType::EBI.value());
    } else {
        assert!(false);
    }
}

#[test]
fn ebi_test_message_parse() {
    let ie_bytes = [InformationElementType::EBI.value(), 0, 1, 0, 0x5];
    if let Some((ie, _pos)) = ebi::InformationElement::parse(&ie_bytes) {
        assert_eq!(ie.eps_bearer_id, 0x5);
    } else {
        assert!(false);
    }
}

#[test]
fn rat_type_test_generate() {
    let mut buffer: Vec<u8> = Vec::new();
    let ie = rat_type::InformationElement::new(rat_type::RATType::EUTRAN, 0).unwrap();
    let pos = ie.generate(&mut buffer);
    assert_eq!(buffer[..pos], [InformationElementType::RATType.value(), 0, 1, 0, 6]);
}

#[test]
fn rat_type_test_length() {
    let ie = rat_type::InformationElement::new(rat_type::RATType::EUTRAN, 0).unwrap();
    assert_eq!(ie.length(), 5);
}

#[test]
fn rat_type_test_message_type() {
    let ie = rat_type::InformationElement::new(rat_type::RATType::EUTRAN, 0).unwrap();
    assert_eq!(ie.information_element_type().value(), InformationElementType::RATType.value())
}

#[test]
fn rat_type_test_message_parse() {
    let ie_bytes = [InformationElementType::RATType.value(), 0, 1, 0, 6];
    if let Some((ie, _pos)) = rat_type::InformationElement::parse(&ie_bytes) {
        assert_eq!(ie.rat_type.value(), rat_type::RATType::EUTRAN.value());
    } else {
        assert!(false);
    }
}

#[test]
fn pdn_type_test_generate() {
    let mut buffer: Vec<u8> = Vec::new();
    let ie = pdn_type::InformationElement::new(pdn_type::PDNType::IPv6, 0).unwrap();
    let pos = ie.generate(&mut buffer);
    assert_eq!(
        buffer[..pos],
        [InformationElementType::PDNType.value(), 0, 1, 0, pdn_type::PDNType::IPv6.value()]
    );
}

#[test]
fn pdn_type_test_length() {
    let ie = pdn_type::InformationElement::new(pdn_type::PDNType::IPv4, 0).unwrap();
    assert_eq!(ie.length(), 5);
}

#[test]
fn pdn_type_test_message_type() {
    let ie = pdn_type::InformationElement::new(pdn_type::PDNType::IPv4, 0).unwrap();
    assert_eq!(ie.information_element_type().value(), InformationElementType::PDNType.value())
}

#[test]
fn pdn_type_test_message_parse() {
    let ie_bytes = [
        InformationElementType::PDNType.value(),
        0,
        1,
        0,
        pdn_type::PDNType::IPv6.value(),
    ];
    if let Some((ie, _pos)) = pdn_type::InformationElement::parse(&ie_bytes) {
        assert_eq!(ie.pdn_type.value(), pdn_type::PDNType::IPv6.value());
    } else {
        assert!(false);
    }
}

#[test]
fn selection_mode_test_generate() {
    let mut buffer: Vec<u8> = Vec::new();
    let ie = selection_mode::InformationElement::new(
        selection_mode::SelectionMode::MSorNetworkProvidedAPNSubscriptionVerified,
        0,
    )
    .unwrap();
    let pos = ie.generate(&mut buffer);
    assert_eq!(buffer[..pos], [InformationElementType::SelectionMode.value(), 0, 1, 0, 0]);
}

#[test]
fn selection_mode_test_length() {
    let ie = selection_mode::InformationElement::new(
        selection_mode::SelectionMode::MSorNetworkProvidedAPNSubscriptionVerified,
        0,
    )
    .unwrap();
    assert_eq!(ie.length(), 5);
}

#[test]
fn selection_mode_test_message_type() {
    let ie = selection_mode::InformationElement::new(
        selection_mode::SelectionMode::MSorNetworkProvidedAPNSubscriptionVerified,
        0,
    )
    .unwrap();
    assert_eq!(ie.information_element_type().value(), InformationElementType::SelectionMode.value())
}

#[test]
fn selection_mode_test_message_parse() {
    let ie_bytes = [InformationElementType::SelectionMode.value(), 0, 1, 0, 2];
    if let Some((ie, _pos)) = selection_mode::InformationElement::parse(&ie_bytes) {
        assert_eq!(
            ie.selection_mode,
            selection_mode::SelectionMode::NetworkProvidedAPNSubscriptionNotVerified
        );
    } else {
        assert!(false);
    }
}

#[test]
fn apn_restriction_test_generate() {
    let mut buffer: Vec<u8> = Vec::new();
    let ie = apn_restriction::InformationElement::new(
        apn_restriction::MaximumAPNRestrictionValue::Private2,
        0,
    )
    .unwrap();
    let pos = ie.generate(&mut buffer);
    assert_eq!(buffer[..pos], [InformationElementType::APNRestriction.value(), 0, 1, 0, 4]);
}

#[test]
fn apn_restriction_test_length() {
    let ie = apn_restriction::InformationElement::new(
        apn_restriction::MaximumAPNRestrictionValue::Private2,
        0,
    )
    .unwrap();
    assert_eq!(ie.length(), 5);
}

#[test]
fn apn_restriction_test_message_type() {
    let ie = apn_restriction::InformationElement::new(
        apn_restriction::MaximumAPNRestrictionValue::Private2,
        0,
    )
    .unwrap();
    assert_eq!(
        ie.information_element_type().value(),
        InformationElementType::APNRestriction.value()
    )
}

#[test]
fn apn_restriction_test_message_parse() {
    let ie_bytes = [InformationElementType::APNRestriction.value(), 0, 1, 0, 4];
    if let Some((ie, _pos)) = apn_restriction::InformationElement::parse(&ie_bytes) {
        assert_eq!(
            ie.maximum_apn_restriction,
            apn_restriction::MaximumAPNRestrictionValue::Private2
        );
    } else {
        assert!(false);
    }
}

#[test]
fn ue_time_zone_test_generate() {
    let mut buffer: Vec<u8> = Vec::new();
    let ie = ue_time_zone::InformationElement::new(
        0x40,
        ue_time_zone::DaylightSavingsTimeAdjustment::OneHourAdjustment,
        0,
    )
    .unwrap();
    let pos = ie.generate(&mut buffer);
    assert_eq!(buffer[..pos], [InformationElementType::UETimeZone.value(), 0, 2, 0, 0x04, 0x1]);
}

#[test]
fn ue_time_zone_test_length() {
    let ie = ue_time_zone::InformationElement::new(
        0x40,
        ue_time_zone::DaylightSavingsTimeAdjustment::OneHourAdjustment,
        0,
    )
    .unwrap();
    assert_eq!(ie.length(), 6);
}

#[test]
fn ue_time_zone_test_message_type() {
    let ie = ue_time_zone::InformationElement::new(
        0x40,
        ue_time_zone::DaylightSavingsTimeAdjustment::OneHourAdjustment,
        0,
    )
    .unwrap();
    assert_eq!(ie.information_element_type().value(), InformationElementType::UETimeZone.value())
}

#[test]
fn ue_time_zone_test_message_parse() {
    let ie_bytes = [InformationElementType::UETimeZone.value(), 0, 2, 0, 0x04, 0x1];
    if let Some((ie, _pos)) = ue_time_zone::InformationElement::parse(&ie_bytes) {
        assert_eq!(ie.timezone_offset, 0x40);
        assert_eq!(
            ie.dst_adjustment,
            ue_time_zone::DaylightSavingsTimeAdjustment::OneHourAdjustment
        );
    } else {
        assert!(false);
    }
}

#[test]
fn charging_characteristics_test_generate() {
    let mut buffer: Vec<u8> = Vec::new();
    let ie = charging_characteristics::InformationElement::new(0x1234, 0).unwrap();
    let pos = ie.generate(&mut buffer);
    assert_eq!(
        buffer[..pos],
        [InformationElementType::ChargingCharacteristics.value(), 0, 2, 0, 0x12, 0x34]
    );
}

#[test]
fn charging_characteristics_test_length() {
    let ie = charging_characteristics::InformationElement::new(0x1234, 0).unwrap();
    assert_eq!(ie.length(), 6);
}

#[test]
fn charging_characteristics_test_message_type() {
    let ie = charging_characteristics::InformationElement::new(0x1234, 0).unwrap();
    assert_eq!(
        ie.information_element_type().value(),
        InformationElementType::ChargingCharacteristics.value()
    )
}

#[test]
fn charging_characteristics_test_message_parse() {
    let ie_bytes = [InformationElementType::ChargingCharacteristics.value(), 0, 2, 0, 0x12, 0x34];
    if let Some((ie, _pos)) = charging_characteristics::InformationElement::parse(&ie_bytes) {
        assert_eq!(ie.charging_characteristics, 0x1234);
    } else {
        assert!(false);
    }
}

#[test]
fn ambr_test_generate() {
    let mut buffer: Vec<u8> = Vec::new();
    let ie = ambr::InformationElement::new(0x12345678, 0x87654321, 0).unwrap();
    let pos = ie.generate(&mut buffer);
    assert_eq!(
        buffer[..pos],
        [
            InformationElementType::AMBR.value(),
            0,
            8,
            0,
            0x12,
            0x34,
            0x56,
            0x78,
            0x87,
            0x65,
            0x43,
            0x21,
        ]
    );
}

#[test]
fn ambr_test_length() {
    let ie = ambr::InformationElement::new(0x12345678, 0x87654321, 0).unwrap();
    assert_eq!(ie.length(), 4 + 8);
}

#[test]
fn ambr_test_message_type() {
    let ie = ambr::InformationElement::new(0x12345678, 0x87654321, 0).unwrap();
    assert_eq!(ie.information_element_type().value(), InformationElementType::AMBR.value())
}

#[test]
fn ambr_test_message_parse() {
    let ie_bytes = [
        InformationElementType::AMBR.value(),
        0,
        8,
        0,
        0x12,
        0x34,
        0x56,
        0x78,
        0x87,
        0x65,
        0x43,
        0x21,
    ];
    if let Some((ie, _pos)) = ambr::InformationElement::parse(&ie_bytes) {
        assert_eq!(ie.uplink, 0x12345678);
        assert_eq!(ie.downlink, 0x87654321);
    } else {
        assert!(false);
    }
}

#[test]
fn serving_network_test_generate() {
    let mut buffer: Vec<u8> = Vec::new();
    let ie = serving_network::InformationElement::new(PLMN::new([5, 0, 5], [0, 9, 9]), 0).unwrap();
    let pos = ie.generate(&mut buffer);
    assert_eq!(
        buffer[..pos],
        [InformationElementType::ServingNetwork.value(), 0, 3, 0, 0x05, 0x95, 0x90]
    );
}

#[test]
fn serving_network_test_length() {
    let ie = serving_network::InformationElement::new(PLMN::new([5, 0, 5], [0, 9, 9]), 0).unwrap();
    assert_eq!(ie.length(), 3 + 4);
}

#[test]
fn serving_network_test_message_type() {
    let ie = serving_network::InformationElement::new(PLMN::new([5, 0, 5], [0, 9, 9]), 0).unwrap();
    assert_eq!(
        ie.information_element_type().value(),
        InformationElementType::ServingNetwork.value()
    )
}

#[test]
fn serving_network_test_message_parse() {
    let ie_bytes = [InformationElementType::ServingNetwork.value(), 0, 3, 0, 0x05, 0x95, 0x90];
    if let Some((ie, _pos)) = serving_network::InformationElement::parse(&ie_bytes) {
        assert_eq!(ie.plmn, PLMN::new([5, 0, 5], [0, 9, 9]));
    } else {
        assert!(false);
    }
}

#[test]
fn v2_imsi_test_new() {
    let imsi_valid = "505013485090404";
    let imsi_ie = imsi::InformationElement::new(imsi_valid, 0);
    match imsi_ie {
        Ok(_) => {
            assert_eq!(true, true);
        },
        Err(e) => {
            println!("{}", e.describe());
            assert_eq!(false, true)
        },
    }

    let imsi_invalid = "5f5013485090404";
    let imsi_ie = imsi::InformationElement::new(imsi_invalid, 0);
    match imsi_ie {
        Ok(_) => {
            assert_eq!(false, true)
        },
        Err(e) => {
            assert_eq!(e.describe(), "Could not parse IMSI".to_string())
        },
    }

    let imsi_invalid = "50501348509040";
    let imsi_ie = imsi::InformationElement::new(imsi_invalid, 0);
    match imsi_ie {
        Ok(_) => {
            assert_eq!(false, true)
        },
        Err(e) => {
            assert_eq!(e.describe(), "IMSI is not the correct number of digits".to_string())
        },
    }
}

#[test]
fn v2_imsi_test_generate_tbcd_imsi() {
    let imsi_str = "505013485090404";
    let imsi_ie = imsi::InformationElement::new(imsi_str, 0);
    assert_eq!(imsi_ie.is_ok(), true);
    if let Ok(i) = imsi_ie {
        assert_eq!(i.generate_tbcd_imsi(), [0x05, 0x05, 0x31, 0x84, 0x05, 0x09, 0x04, 0xF4]);
    } else {
        assert_eq!(false, true)
    }
}

#[test]
fn v2_imsi_test_generate() {
    let mut buffer: Vec<u8> = Vec::new();
    let imsi_str = "505013485090404";
    let imsi_ie = imsi::InformationElement::new(imsi_str, 0);
    match imsi_ie {
        Ok(i) => {
            let pos = i.generate(&mut buffer);
            assert_eq!(
                buffer[..pos],
                [
                    InformationElementType::IMSI.value(),
                    0,
                    8,
                    0,
                    0x05,
                    0x05,
                    0x31,
                    0x84,
                    0x05,
                    0x09,
                    0x04,
                    0xF4
                ]
            );
        },
        Err(e) => {
            println!("{}", e.describe());
            assert_eq!(false, true)
        },
    }
}

#[test]
fn v2_imsi_test_length() {
    let imsi_str = "505013485090404";
    let ie = imsi::InformationElement::new(imsi_str, 0);
    if let Ok(i) = ie {
        assert_eq!(i.length(), 12)
    } else {
        assert_eq!(false, true)
    }
}

#[test]
fn v2_imsi_test_message_type() {
    let imsi_str = "505013485090404";
    let ie = imsi::InformationElement::new(imsi_str, 0);
    if let Ok(i) = ie {
        assert_eq!(i.information_element_type().value(), InformationElementType::IMSI.value())
    } else {
        assert_eq!(false, true);
    }
}

#[test]
fn v2_imsi_test_message_parse() {
    let ie_bytes = [
        InformationElementType::IMSI.value(),
        0,
        8,
        0,
        0x05,
        0x05,
        0x31,
        0x84,
        0x05,
        0x09,
        0x04,
        0xF4,
    ];
    if let Some((ie, _pos)) = imsi::InformationElement::parse(&ie_bytes) {
        assert_eq!(ie.imsi, [5, 0, 5, 0, 1, 3, 4, 8, 5, 0, 9, 0, 4, 0, 4]);
    } else {
        assert!(false);
    }
}

#[test]
fn msisdn_test_new() {
    let msisdn_valid = "61444555666";
    let msisdn_ie = msisdn::InformationElement::new(msisdn_valid, 0);
    match msisdn_ie {
        Ok(_) => {
            assert_eq!(true, true);
        },
        Err(e) => {
            println!("{}", e.describe());
            assert_eq!(false, true)
        },
    }

    let msisdn_invalid = "6f444555666";
    let msisdn_ie = msisdn::InformationElement::new(msisdn_invalid, 0);
    match msisdn_ie {
        Ok(_) => {
            assert_eq!(false, true)
        },
        Err(e) => {
            assert_eq!(e.describe(), "Could not parse MSISDN".to_string())
        },
    }
}

#[test]
fn test_generate_tbcd_msisdn() {
    let msisdn_str = "61123456789";
    let msisdn_ie = msisdn::InformationElement::new(msisdn_str, 0);
    assert_eq!(msisdn_ie.is_ok(), true);
    if let Ok(i) = msisdn_ie {
        assert_eq!(i.generate_tbcd_msisdn(), [0x16, 0x21, 0x43, 0x65, 0x87, 0xF9]);
    } else {
        assert_eq!(false, true)
    }

    let msisdn_str = "611234567890";
    let msisdn_ie = msisdn::InformationElement::new(msisdn_str, 0);
    assert_eq!(msisdn_ie.is_ok(), true);
    if let Ok(i) = msisdn_ie {
        assert_eq!(i.generate_tbcd_msisdn(), [0x16, 0x21, 0x43, 0x65, 0x87, 0x09]);
    } else {
        assert_eq!(false, true)
    }
}

#[test]
fn msisdn_test_generate() {
    let mut buffer: Vec<u8> = Vec::new();
    let msisdn_str = "61123456789";
    let msisdn_ie = msisdn::InformationElement::new(msisdn_str, 0);
    match msisdn_ie {
        Ok(i) => {
            let pos = i.generate(&mut buffer);
            assert_eq!(
                buffer[..pos],
                [
                    InformationElementType::MSISDN.value(),
                    0,
                    6,
                    0,
                    0x16,
                    0x21,
                    0x43,
                    0x65,
                    0x87,
                    0xF9
                ]
            );
        },
        Err(e) => {
            println!("{}", e.describe());
            assert_eq!(false, true)
        },
    }
}

#[test]
fn msisdn_test_length() {
    let msisdn_str = "61123456789";
    let ie = msisdn::InformationElement::new(msisdn_str, 0);
    if let Ok(i) = ie {
        assert_eq!(i.length(), 10)
    } else {
        assert_eq!(false, true)
    }
}

#[test]
fn msisdn_test_message_type() {
    let msisdn_str = "61123456789";
    let ie = msisdn::InformationElement::new(msisdn_str, 0);
    if let Ok(i) = ie {
        assert_eq!(i.information_element_type().value(), InformationElementType::MSISDN.value())
    } else {
        assert_eq!(false, true);
    }
}

#[test]
fn msisdn_test_message_parse() {
    let ie_bytes = [
        InformationElementType::MSISDN.value(),
        0,
        6,
        0,
        0x16,
        0x21,
        0x43,
        0x65,
        0x87,
        0xF9,
    ];
    if let Some((ie, _pos)) = msisdn::InformationElement::parse(&ie_bytes) {
        assert_eq!(ie.msisdn, [6, 1, 1, 2, 3, 4, 5, 6, 7, 8, 9]);
    } else {
        assert!(false);
    }

    let ie_bytes = [
        InformationElementType::MSISDN.value(),
        0,
        6,
        0,
        0x16,
        0x21,
        0x43,
        0x65,
        0x87,
        0x09,
    ];
    if let Some((ie, _pos)) = msisdn::InformationElement::parse(&ie_bytes) {
        assert_eq!(ie.msisdn, [6, 1, 1, 2, 3, 4, 5, 6, 7, 8, 9, 0]);
    } else {
        assert!(false);
    }
}

#[test]
fn mei_test_generate() {
    let mut buffer: Vec<u8> = Vec::new();
    let imei: [u8; 15] = [1, 2, 3, 4, 5, 6, 7, 8, 9, 1, 2, 3, 4, 5, 6];
    let ie = mei::InformationElement::new(imei, None, 0).unwrap();
    let pos = ie.generate(&mut buffer);
    assert_eq!(
        buffer[..pos],
        [
            InformationElementType::MEI.value(),
            0,
            8,
            0,
            0x21,
            0x43,
            0x65,
            0x87,
            0x19,
            0x32,
            0x54,
            0xF6
        ]
    );

    let mut buffer: Vec<u8> = Vec::new();
    let ie = mei::InformationElement::new(imei, Some(1), 0).unwrap();
    let pos = ie.generate(&mut buffer);
    assert_eq!(
        buffer[..pos],
        [
            InformationElementType::MEI.value(),
            0,
            8,
            0,
            0x21,
            0x43,
            0x65,
            0x87,
            0x19,
            0x32,
            0x54,
            0x16
        ]
    );
}

#[test]
fn mei_test_length() {
    let imei: [u8; 15] = [1, 2, 3, 4, 5, 6, 7, 8, 9, 1, 2, 3, 4, 5, 6];
    let ie = mei::InformationElement::new(imei, None, 0).unwrap();
    assert_eq!(ie.length(), 12);
}

#[test]
fn mei_test_message_type() {
    let imei: [u8; 15] = [1, 2, 3, 4, 5, 6, 7, 8, 9, 1, 2, 3, 4, 5, 6];
    let ie = mei::InformationElement::new(imei, None, 0).unwrap();
    assert_eq!(ie.information_element_type().value(), InformationElementType::MEI.value())
}

#[test]
fn mei_test_message_parse() {
    let ie_bytes = [
        InformationElementType::MEI.value(),
        0,
        8,
        0,
        0x21,
        0x43,
        0x65,
        0x87,
        0x19,
        0x32,
        0x54,
        0x16,
    ];
    if let Some((ie, _pos)) = mei::InformationElement::parse(&ie_bytes) {
        assert_eq!(ie.imei, [1, 2, 3, 4, 5, 6, 7, 8, 9, 1, 2, 3, 4, 5, 6]);
        assert!(ie.sv.is_some());
        assert_eq!(ie.sv.unwrap(), 1);
    } else {
        assert!(false);
    }

    let ie_bytes = [
        InformationElementType::MEI.value(),
        0,
        8,
        0,
        0x21,
        0x43,
        0x65,
        0x87,
        0x19,
        0x32,
        0x54,
        0xF6,
    ];
    if let Some((ie, _pos)) = mei::InformationElement::parse(&ie_bytes) {
        assert_eq!(ie.imei, [1, 2, 3, 4, 5, 6, 7, 8, 9, 1, 2, 3, 4, 5, 6]);
        assert!(ie.sv.is_none());
    } else {
        assert!(false);
    }
}

#[test]
fn test_new_rand() {
    let ie = f_teid::InformationElement::new_rand(
        f_teid::InterfaceType::S11MmeGtpC,
        Some(Ipv4Address::new(10, 0, 0, 1)),
        None,
        0,
    );
    assert_eq!(ie.is_ok(), true);
}

#[test]
fn f_teid_test_generate() {
    let mut buffer: Vec<u8> = Vec::new();
    let ie = f_teid::InformationElement::new(
        f_teid::InterfaceType::S11MmeGtpC,
        0x87654321,
        Some(Ipv4Address::new(10, 0, 0, 1)),
        None,
        0,
    )
    .unwrap();
    let pos = ie.generate(&mut buffer);
    assert_eq!(
        buffer[..pos],
        [
            InformationElementType::FTEID.value(),
            0,
            9,
            0,
            128 + f_teid::InterfaceType::S11MmeGtpC.value(),
            0x87,
            0x65,
            0x43,
            0x21,
            10,
            0,
            0,
            1
        ]
    );
}

#[test]
fn f_teid_test_length() {
    let ie = f_teid::InformationElement::new(
        f_teid::InterfaceType::S11MmeGtpC,
        0x87654321,
        Some(Ipv4Address::new(10, 0, 0, 1)),
        None,
        0,
    )
    .unwrap();
    assert_eq!(ie.length(), 9 + 4);

    let ie = f_teid::InformationElement::new(
        f_teid::InterfaceType::S11MmeGtpC,
        0x87654321,
        Some(Ipv4Address::new(10, 0, 0, 1)),
        Some(Ipv6Address::new(0xFADE, 0xDEAD, 0xBEEF, 0xCAFE, 0xFEED, 0xDEAF, 0xBEAD, 0xFACE)),
        0,
    )
    .unwrap();
    assert_eq!(ie.length(), 25 + 4);
}

#[test]
fn f_teid_test_message_type() {
    let ie = f_teid::InformationElement::new(
        f_teid::InterfaceType::S11MmeGtpC,
        0x87654321,
        Some(Ipv4Address::new(10, 0, 0, 1)),
        None,
        0,
    )
    .unwrap();
    assert_eq!(ie.information_element_type().value(), InformationElementType::FTEID.value())
}

#[test]
fn f_teid_test_message_parse() {
    let ie_bytes = [
        InformationElementType::FTEID.value(),
        0,
        25,
        0,
        128 + 64 + f_teid::InterfaceType::S11MmeGtpC.value(),
        0x87,
        0x65,
        0x43,
        0x21,
        10,
        0,
        0,
        1,
        0xFA,
        0xDE,
        0xDE,
        0xAD,
        0xBE,
        0xEF,
        0xCA,
        0xFE,
        0xFE,
        0xED,
        0xDE,
        0xAF,
        0xBE,
        0xAD,
        0xFA,
        0xCE,
    ];
    if let Some((ie, _pos)) = f_teid::InformationElement::parse(&ie_bytes) {
        assert_eq!(ie.interface_type.value(), f_teid::InterfaceType::S11MmeGtpC.value());
        assert_eq!(ie.teid, 0x87654321);
        if let Some(a) = ie.ipv4_address {
            assert_eq!(a, Ipv4Address::new(10, 0, 0, 1));
        } else {
            assert!(false);
        }
        if let Some(a) = ie.ipv6_address {
            assert_eq!(
                a,
                Ipv6Address::new(0xFADE, 0xDEAD, 0xBEEF, 0xCAFE, 0xFEED, 0xDEAF, 0xBEAD, 0xFACE)
            );
        } else {
            assert!(false);
        }
    } else {
        assert!(false);
    }
}

#[test]
fn bearer_qos_test_generate() {
    let mut buffer: Vec<u8> = Vec::new();
    if let Ok(ie) =
        bearer_qos::InformationElement::new(false, 9, true, 7, 10_000_000, 10_000_000, 0, 0, 0)
    {
        let pos = ie.generate(&mut buffer);
        assert_eq!(
            buffer[..pos],
            [
                InformationElementType::BearerQoS.value(),
                0,
                22,
                0,
                0b01100100,
                7,
                0x00,
                0x00,
                0x98,
                0x96,
                0x80,
                0x00,
                0x00,
                0x98,
                0x96,
                0x80,
                0x00,
                0x00,
                0x00,
                0x00,
                0x00,
                0x00,
                0x00,
                0x00,
                0x00,
                0x00,
            ]
        );
    } else {
        assert!(false);
    }

    if let Ok(_) =
        bearer_qos::InformationElement::new(false, 0x1F, true, 7, 10_000_000, 10_000_000, 0, 0, 0)
    {
        assert!(false);
    }
    if let Ok(_) = bearer_qos::InformationElement::new(
        false, 9, true, 7, 10_000_001, 10_000_000, 10_000_000, 10_000_000, 0,
    ) {
        assert!(false);
    }
    if let Ok(_) = bearer_qos::InformationElement::new(
        false, 9, true, 7, 10_000_000, 10_000_001, 10_000_000, 10_000_000, 0,
    ) {
        assert!(false);
    }
    if let Ok(_) = bearer_qos::InformationElement::new(
        false, 9, true, 7, 10_000_000, 10_000_000, 10_000_001, 10_000_000, 0,
    ) {
        assert!(false);
    }
    if let Ok(_) = bearer_qos::InformationElement::new(
        false, 9, true, 7, 10_000_000, 10_000_000, 10_000_000, 10_000_001, 0,
    ) {
        assert!(false);
    }
}

#[test]
fn bearer_qos_test_length() {
    let ie =
        bearer_qos::InformationElement::new(false, 9, true, 7, 10_000_000, 10_000_000, 0, 0, 0)
            .unwrap();
    assert_eq!(ie.length(), 22 + 4);
}

#[test]
fn bearer_qos_test_message_type() {
    let ie =
        bearer_qos::InformationElement::new(false, 9, true, 7, 10_000_000, 10_000_000, 0, 0, 0)
            .unwrap();
    assert_eq!(ie.information_element_type().value(), InformationElementType::BearerQoS.value());
}

#[test]
fn bearer_qos_test_message_parse() {
    let ie_bytes = [
        InformationElementType::BearerQoS.value(),
        0,
        22,
        0,
        0b01100100,
        7,
        0x00,
        0x00,
        0x98,
        0x96,
        0x80,
        0x00,
        0x00,
        0x98,
        0x96,
        0x80,
        0x00,
        0x00,
        0x00,
        0x00,
        0x00,
        0x00,
        0x00,
        0x00,
        0x00,
        0x00,
    ];
    if let Some((ie, _pos)) = bearer_qos::InformationElement::parse(&ie_bytes) {
        assert_eq!(ie.pci, false);
        assert_eq!(ie.pvi, true);
        assert_eq!(ie.qci, 7);
        assert_eq!(ie.pl(), 9);
        assert_eq!(ie.max_ul_bitrate(), 10_000_000);
        assert_eq!(ie.max_dl_bitrate(), 10_000_000);
        assert_eq!(ie.guaranteed_ul_bitrate(), 0);
        assert_eq!(ie.guaranteed_dl_bitrate(), 0);
    } else {
        assert!(false);
    }
}

#[test]
fn bearer_qos_flags_round_trip() {
    let ie = bearer_qos::InformationElement::new(true, 3, false, 5, 1, 2, 3, 4, 0).unwrap();
    let mut buffer: Vec<u8> = Vec::new();
    ie.generate(&mut buffer);
    let (back, _n) = bearer_qos::InformationElement::parse(&buffer).unwrap();
    assert_eq!(back.pci, true);
    assert_eq!(back.pvi, false);
    assert_eq!(back.pl(), 3);
}

#[test]
fn cause_test_generate() {
    let mut buffer: Vec<u8> = Vec::new();
    let ie = cause::InformationElement::new(
        cause::CauseCode::NoResourcesAvailable,
        cause::CauseSource::LocalNode,
        false,
        true,
        Some((InformationElementType::BearerContext, 1)),
        0,
    )
    .unwrap();
    let pos = ie.generate(&mut buffer);
    assert_eq!(
        buffer[..pos],
        [
            InformationElementType::Cause.value(),
            0,
            6,
            0,
            cause::CauseCode::NoResourcesAvailable.value(),
            0b00000100,
            InformationElementType::BearerContext.value(),
            0,
            0,
            0x01
        ]
    );

    let mut buffer: Vec<u8> = Vec::new();
    let ie = cause::InformationElement::new(
        cause::CauseCode::RequestAccepted,
        cause::CauseSource::LocalNode,
        false,
        false,
        None,
        0,
    )
    .unwrap();
    let pos = ie.generate(&mut buffer);
    assert_eq!(
        buffer[..pos],
        [
            InformationElementType::Cause.value(),
            0,
            2,
            0,
            cause::CauseCode::RequestAccepted.value(),
            0b00000000,
        ]
    );
}

#[test]
fn cause_test_length() {
    let ie = cause::InformationElement::new(
        cause::CauseCode::RequestAccepted,
        cause::CauseSource::LocalNode,
        false,
        false,
        None,
        0,
    )
    .unwrap();
    assert_eq!(ie.length(), 6);

    let ie = cause::InformationElement::new(
        cause::CauseCode::NoResourcesAvailable,
        cause::CauseSource::LocalNode,
        false,
        true,
        Some((InformationElementType::BearerContext, 1)),
        0,
    )
    .unwrap();
    assert_eq!(ie.length(), 10);
}

#[test]
fn cause_test_message_type() {
    let ie = cause::InformationElement::new(
        cause::CauseCode::RequestAccepted,
        cause::CauseSource::LocalNode,
        false,
        false,
        None,
        0,
    )
    .unwrap();
    assert_eq!(ie.information_element_type().value(), InformationElementType::Cause.value());
}

#[test]
fn cause_test_message_parse() {
    let ie_bytes = [
        InformationElementType::Cause.value(),
        0,
        6,
        0,
        cause::CauseCode::NoResourcesAvailable.value(),
        0b00000100,
        InformationElementType::BearerContext.value(),
        0,
        0,
        0x01,
    ];
    if let Some((ie, _pos)) = cause::InformationElement::parse(&ie_bytes) {
        assert_eq!(ie.cause_code, cause::CauseCode::NoResourcesAvailable);
        assert_eq!(ie.cause_source, cause::CauseSource::LocalNode);
        assert_eq!(ie.pdn_connection_ie_error, true);
        assert_eq!(ie.bearer_context_ie_error, false);
        assert_eq!(ie.offending_ie, Some((InformationElementType::BearerContext, 1)))
    } else {
        assert!(false);
    }
}

#[test]
fn pdn_address_allocation_test_generate() {
    let ie = pdn_address_allocation::InformationElement::new(pdn_type::PDNType::IPv4, None, None, 0);
    assert_eq!(ie.is_ok(), false);

    let ie = pdn_address_allocation::InformationElement::new(pdn_type::PDNType::IPv6, None, None, 0);
    assert_eq!(ie.is_ok(), false);

    let ie = pdn_address_allocation::InformationElement::new(
        pdn_type::PDNType::IPv4v6,
        None,
        Some((
            Ipv6Address::new(0xFADE, 0xDEAD, 0xBEEF, 0xCAFE, 0xFEED, 0xDEAF, 0xBEAD, 0xFACE),
            128,
        )),
        0,
    );
    assert_eq!(ie.is_ok(), false);

    let ie = pdn_address_allocation::InformationElement::new(
        pdn_type::PDNType::IPv4v6,
        Some(Ipv4Address::new(10, 0, 0, 1)),
        None,
        0,
    );
    assert_eq!(ie.is_ok(), false);

    let mut buffer: Vec<u8> = Vec::new();
    let ie = pdn_address_allocation::InformationElement::new(
        pdn_type::PDNType::IPv4v6,
        Some(Ipv4Address::new(10, 0, 0, 1)),
        Some((
            Ipv6Address::new(0xFADE, 0xDEAD, 0xBEEF, 0xCAFE, 0xFEED, 0xDEAF, 0xBEAD, 0xFACE),
            128,
        )),
        0,
    )
    .unwrap();
    let pos = ie.generate(&mut buffer);
    assert_eq!(
        buffer[..pos],
        [
            InformationElementType::PDNAddressAllocation.value(),
            0,
            22,
            0,
            pdn_type::PDNType::IPv4v6.value(),
            128,
            0xFA,
            0xDE,
            0xDE,
            0xAD,
            0xBE,
            0xEF,
            0xCA,
            0xFE,
            0xFE,
            0xED,
            0xDE,
            0xAF,
            0xBE,
            0xAD,
            0xFA,
            0xCE,
            10,
            0,
            0,
            1,
        ]
    );
}

#[test]
fn pdn_address_allocation_test_length() {
    let ie = pdn_address_allocation::InformationElement::new(
        pdn_type::PDNType::IPv4v6,
        Some(Ipv4Address::new(10, 0, 0, 1)),
        Some((
            Ipv6Address::new(0xFADE, 0xDEAD, 0xBEEF, 0xCAFE, 0xFEED, 0xDEAF, 0xBEAD, 0xFACE),
            128,
        )),
        0,
    )
    .unwrap();
    assert_eq!(ie.length(), 26);
}

#[test]
fn pdn_address_allocation_test_message_type() {
    let ie = pdn_address_allocation::InformationElement::new(
        pdn_type::PDNType::IPv4v6,
        Some(Ipv4Address::new(10, 0, 0, 1)),
        Some((
            Ipv6Address::new(0xFADE, 0xDEAD, 0xBEEF, 0xCAFE, 0xFEED, 0xDEAF, 0xBEAD, 0xFACE),
            128,
        )),
        0,
    )
    .unwrap();
    assert_eq!(
        ie.information_element_type().value(),
        InformationElementType::PDNAddressAllocation.value()
    )
}

#[test]
fn pdn_address_allocation_test_message_parse() {
    let ie_bytes = [
        InformationElementType::PDNAddressAllocation.value(),
        0,
        22,
        0,
        pdn_type::PDNType::IPv4v6.value(),
        128,
        0xFA,
        0xDE,
        0xDE,
        0xAD,
        0xBE,
        0xEF,
        0xCA,
        0xFE,
        0xFE,
        0xED,
        0xDE,
        0xAF,
        0xBE,
        0xAD,
        0xFA,
        0xCE,
        10,
        0,
        0,
        1,
    ];
    if let Some((ie, _pos)) = pdn_address_allocation::InformationElement::parse(&ie_bytes) {
        assert_eq!(ie.pdn_type, pdn_type::PDNType::IPv4v6);
        assert_eq!(
            ie.ipv6_address_and_prefix,
            Some((
                Ipv6Address::new(0xFADE, 0xDEAD, 0xBEEF, 0xCAFE, 0xFEED, 0xDEAF, 0xBEAD, 0xFACE),
                128
            ))
        );
        assert_eq!(ie.ipv4_address, Some(Ipv4Address::new(10, 0, 0, 1)));
    } else {
        assert!(false);
    }
}

#[test]
fn apn_test_generate() {
    let mut buffer: Vec<u8> = Vec::new();
    let ie = apn::InformationElement::new("awesome.apn.mnc099.mcc505.gprs", 0).unwrap();
    let pos = ie.generate(&mut buffer);
    let expected = [
        InformationElementType::APN.value(),
        0,
        31,
        0,
        7,
        b'a',
        b'w',
        b'e',
        b's',
        b'o',
        b'm',
        b'e',
        3,
        b'a',
        b'p',
        b'n',
        6,
        b'm',
        b'n',
        b'c',
        b'0',
        b'9',
        b'9',
        6,
        b'm',
        b'c',
        b'c',
        b'5',
        b'0',
        b'5',
        4,
        b'g',
        b'p',
        b'r',
        b's',
    ];
    for i in 0..pos {
        if buffer[i] != expected[i] {
            println!("{} (actual) != {} (expected) at byte {}", buffer[i], expected[i], i);
            assert!(false);
        }
    }
}

#[test]
fn apn_test_length() {
    let ie = apn::InformationElement::new("awesome.apn.mnc099.mcc505.gprs", 0).unwrap();
    assert_eq!(ie.length(), 31 + 4);
}

#[test]
fn apn_test_message_type() {
    let ie = apn::InformationElement::new("awesome.apn.mnc099.mcc505.gprs", 0).unwrap();
    assert_eq!(ie.information_element_type().value(), InformationElementType::APN.value())
}

#[test]
fn apn_test_message_parse() {
    let ie_bytes = [
        InformationElementType::APN.value(),
        0,
        31,
        0,
        7,
        b'a',
        b'w',
        b'e',
        b's',
        b'o',
        b'm',
        b'e',
        3,
        b'a',
        b'p',
        b'n',
        6,
        b'm',
        b'n',
        b'c',
        b'0',
        b'9',
        b'9',
        6,
        b'm',
        b'c',
        b'c',
        b'5',
        b'0',
        b'5',
        4,
        b'g',
        b'p',
        b'r',
        b's',
    ];
    if let Some((ie, _pos)) = apn::InformationElement::parse(&ie_bytes) {
        assert_eq!(ie.apn, b"awesome.apn.mnc099.mcc505.gprs".to_vec());
    } else {
        assert!(false);
    }
}

fn sample_uli() -> uli::InformationElement {
    uli::InformationElement::new(
        Some(uli::CGI::new(PLMN::new([5, 0, 5], [0, 9, 9]), 0x1234, 0x4321)),
        Some(uli::SAI::new(PLMN::new([5, 0, 5], [0, 9, 9]), 0x1234, 0x4321)),
        Some(uli::RAI::new(PLMN::new([5, 0, 5], [0, 9, 9]), 0x1234, 0x4321)),
        Some(uli::TAI::new(PLMN::new([5, 0, 5], [0, 9, 9]), 0x1234)),
        Some(uli::ECGI::new(PLMN::new([5, 0, 5], [0, 9, 9]), 0xF_FF_FF_FF).unwrap()),
        Some(uli::LAI::new(PLMN::new([5, 0, 5], [0, 9, 9]), 0x1234)),
        Some(uli::MeNBID::new(PLMN::new([5, 0, 5], [0, 9, 9]), 0xFFFFF).unwrap()),
        Some(uli::EMeNBID::new(PLMN::new([5, 0, 5], [0, 9, 9]), 0x1FFFFF).unwrap()),
        0,
    )
    .unwrap()
}

const ULI_BYTES: [u8; 55] = [
    86, 0, 51, 0, 0b1111_1111, 0x05, 0x95, 0x90, 0x12, 0x34, 0x43, 0x21, 0x05, 0x95, 0x90, 0x12,
    0x34, 0x43, 0x21, 0x05, 0x95, 0x90, 0x12, 0x34, 0x43, 0x21, 0x05, 0x95, 0x90, 0x12, 0x34,
    0x05, 0x95, 0x90, 0x0F, 0xFF, 0xFF, 0xFF, 0x05, 0x95, 0x90, 0x12, 0x34, 0x05, 0x95, 0x90,
    0x0F, 0xFF, 0xFF, 0x05, 0x95, 0x90, 0x1F, 0xFF, 0xFF,
];

#[test]
fn user_location_information_test_generate() {
    let mut buffer: Vec<u8> = Vec::new();
    let ie = sample_uli();
    let pos = ie.generate(&mut buffer);
    for i in 0..pos {
        if buffer[i] != ULI_BYTES[i] {
            println!("{} (actual) != {} (expected) at byte {}", buffer[i], ULI_BYTES[i], i);
            assert!(false);
        }
    }
}

#[test]
fn user_location_information_test_length() {
    let ie = sample_uli();
    assert_eq!(ie.length(), 55);
}

#[test]
fn user_location_information_test_message_type() {
    let ie = sample_uli();
    assert_eq!(
        ie.information_element_type().value(),
        InformationElementType::UserLocationInformation.value()
    )
}

#[test]
fn user_location_information_test_message_parse() {
    if let Some((ie, pos)) = uli::InformationElement::parse(&ULI_BYTES) {
        assert_eq!(pos, 55);
        assert_eq!(ie.cgi, Some(uli::CGI::new(PLMN::new([5, 0, 5], [0, 9, 9]), 0x1234, 0x4321)));
        assert_eq!(ie.sai, Some(uli::SAI::new(PLMN::new([5, 0, 5], [0, 9, 9]), 0x1234, 0x4321)));
        assert_eq!(ie.rai, Some(uli::RAI::new(PLMN::new([5, 0, 5], [0, 9, 9]), 0x1234, 0x4321)));
        assert_eq!(ie.tai, Some(uli::TAI::new(PLMN::new([5, 0, 5], [0, 9, 9]), 0x1234)));
        assert_eq!(
            ie.ecgi,
            Some(uli::ECGI::new(PLMN::new([5, 0, 5], [0, 9, 9]), 0xF_FF_FF_FF).unwrap())
        );
        assert_eq!(ie.lai, Some(uli::LAI::new(PLMN::new([5, 0, 5], [0, 9, 9]), 0x1234)));
        assert_eq!(
            ie.menbid,
            Some(uli::MeNBID::new(PLMN::new([5, 0, 5], [0, 9, 9]), 0xFFFFF).unwrap())
        );
        assert_eq!(
            ie.emenbid,
            Some(uli::EMeNBID::new(PLMN::new([5, 0, 5], [0, 9, 9]), 0x1FFFFF).unwrap())
        );
    } else {
        assert!(false);
    }
}

fn sample_bearer_context() -> bearer_context::InformationElement {
    bearer_context::InformationElement::new(
        ebi::InformationElement::new(7, 0).unwrap(),
        bearer_qos::InformationElement::new(false, 9, true, 7, 10_000_000, 10_000_000, 0, 0, 0)
            .unwrap(),
        0,
    )
    .unwrap()
}

const BEARER_CONTEXT_BYTES: [u8; 35] = [
    93, 0, 31, 0, 73, 0, 1, 0, 7, 80, 0, 22, 0, 0b01100100, 7, 0x00, 0x00, 0x98, 0x96, 0x80, 0x00,
    0x00, 0x98, 0x96, 0x80, 0x00, 0x00, 0x00, 0x00, 0x00, 0x00, 0x00, 0x00, 0x00, 0x00,
];

#[test]
fn bearer_context_test_generate() {
    let mut buffer: Vec<u8> = Vec::new();
    let ie = sample_bearer_context();
    let pos = ie.generate(&mut buffer);
    let expected = [
        93u8, 0, 31, 0, 73, 0, 1, 0, 7, 80, 0, 22, 0, 0b01100100, 7, 0x00, 0x00, 0x98, 0x96, 0x80,
        0x00, 0x00, 0x98, 0x96, 0x80, 0x00, 0x00, 0x00, 0x00, 0x00, 0x00, 0x00, 0x00, 0x00, 0x00,
    ];
    for i in 0..pos {
        if buffer[i] != expected[i] {
            println!("{} (actual) != {} (expected) at byte {}", buffer[i], expected[i], i);
            assert!(false);
        }
    }
}

#[test]
fn bearer_context_test_length() {
    let ie = sample_bearer_context();
    assert_eq!(ie.length(), 35);
}

#[test]
fn bearer_context_test_message_type() {
    let ie = sample_bearer_context();
    assert_eq!(
        ie.information_element_type().value(),
        InformationElementType::BearerContext.value()
    );
}

#[test]
fn bearer_context_test_message_parse() {
    if let Some((ie, _pos)) = bearer_context::InformationElement::parse(&BEARER_CONTEXT_BYTES) {
        assert_eq!(ie.eps_bearer_id.eps_bearer_id, 7);
        assert_eq!(ie.bearer_level_qos.pvi, true);
        assert_eq!(ie.bearer_level_qos.pl(), 9);
        assert_eq!(ie.bearer_level_qos.pci, false);
        assert_eq!(ie.bearer_level_qos.qci, 7);
        assert_eq!(ie.bearer_level_qos.guaranteed_ul_bitrate(), 0);
        assert_eq!(ie.bearer_level_qos.guaranteed_dl_bitrate(), 0);
        assert_eq!(ie.bearer_level_qos.max_ul_bitrate(), 10_000_000);
        assert_eq!(ie.bearer_level_qos.max_dl_bitrate(), 10_000_000);
    } else {
        assert!(false);
    }
}
