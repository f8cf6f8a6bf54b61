use bluestation::bits::BitBuffer;
use bluestation::pdu_parse_error::PduParseErr;
use bluestation::umac::access_assign::AccessAssign;
use bluestation::umac::access_assign_fr18::AccessAssignFr18;
use bluestation::umac::access_code::AccessCode;
use bluestation::umac::access_field::AccessField;
use bluestation::umac::base_frame_length::BaseFrameLength;
use bluestation::umac::usage_marker::{AccessAssignDlUsage, AccessAssignUlUsage};

#[test]
fn test_unallocated() {
    let bitstr = "11000000000000";
    let mut buf = BitBuffer::from_bitstr(bitstr);
    let mut bitarr = [0_u8; 14];
    let mut new_bitarr = [0_u8; 14];
    buf.to_bitarr(&mut bitarr);
    buf.seek(0);
    println!("buf: {}", buf.dump_bin());
    let pdu = AccessAssign::from_bitbuf(&mut buf).unwrap();
    println!("pdu: {:?}", pdu);
    let mut new_buf = BitBuffer::new(14);
    pdu.to_bitbuf(&mut new_buf);
    new_buf.seek(0);
    new_buf.to_bitarr(&mut new_bitarr);
    println!("new: {:?}", new_buf.dump_bin());
    assert_eq!(bitarr, new_bitarr);
}

#[test]
fn test_commoncontrol() {
    let bitstr = "00001010001010";
    let mut buf = BitBuffer::from_bitstr(bitstr);
    let mut bitarr = [0_u8; 14];
    let mut new_bitarr = [0_u8; 14];
    buf.to_bitarr(&mut bitarr);
    buf.seek(0);
    println!("buf: {}", buf.dump_bin());
    let pdu = AccessAssign::from_bitbuf(&mut buf).unwrap();
    println!("pdu: {:?}", pdu);
    let mut new_buf = BitBuffer::new(14);
    pdu.to_bitbuf(&mut new_buf);
    new_buf.seek(0);
    new_buf.to_bitarr(&mut new_bitarr);
    println!("new: {:?}", new_buf.dump_bin());
    assert_eq!(bitarr, new_bitarr);
}

#[test]
fn access_assign_decodes_each_header() {
    let mut buf = BitBuffer::from_bitstr("00001010001010");
    let pdu = AccessAssign::from_bitbuf(&mut buf).unwrap();
    assert_eq!(
        pdu,
        AccessAssign::DownlinkCommonControlUplinkCommonOnly {
            access_field_1: AccessField { access_code: AccessCode::AccessCodeA, base_frame_len: BaseFrameLength::Subslots10 },
            access_field_2: AccessField { access_code: AccessCode::AccessCodeA, base_frame_len: BaseFrameLength::Subslots10 },
        }
    );
    assert_eq!(buf.get_pos(), 14);

    let mut buf = BitBuffer::from_bitstr("01000101110110");
    let pdu = AccessAssign::from_bitbuf(&mut buf).unwrap();
    assert_eq!(
        pdu,
        AccessAssign::DownlinkDefinedUplinkCommonAndAssigned {
            downlink_usage_marker: AccessAssignDlUsage::Traffic(5),
            access_field: AccessField { access_code: AccessCode::AccessCodeD, base_frame_len: BaseFrameLength::Subslots4 },
        }
    );
    assert!(pdu.dl_is_traffic());

    let mut buf = BitBuffer::from_bitstr("10000010010001");
    let pdu = AccessAssign::from_bitbuf(&mut buf).unwrap();
    assert_eq!(
        pdu,
        AccessAssign::DownlinkDefinedUplinkAssignedOnly {
            downlink_usage_marker: AccessAssignDlUsage::CommonControl,
            access_field: AccessField { access_code: AccessCode::AccessCodeB, base_frame_len: BaseFrameLength::CLCHSubslot },
        }
    );
    assert!(!pdu.dl_is_traffic());

    let mut buf = BitBuffer::from_bitstr("11111111000100");
    let pdu = AccessAssign::from_bitbuf(&mut buf).unwrap();
    assert_eq!(
        pdu,
        AccessAssign::DownlinkDefinedUplinkDefined {
            downlink_usage_marker: AccessAssignDlUsage::Traffic(63),
            uplink_usage_marker: AccessAssignUlUsage::Traffic(4),
        }
    );
}

#[test]
fn access_assign_reserved_uplink_marker_roundtrip() {
    let mut buf = BitBuffer::from_bitstr("11000001000011");
    let pdu = AccessAssign::from_bitbuf(&mut buf).unwrap();
    assert_eq!(
        pdu,
        AccessAssign::DownlinkDefinedUplinkDefined {
            downlink_usage_marker: AccessAssignDlUsage::AssignedControl,
            uplink_usage_marker: AccessAssignUlUsage::Reserved(3),
        }
    );
    let mut out = BitBuffer::new(14);
    pdu.to_bitbuf(&mut out);
    assert_eq!(out.dump_bin(), "11000001000011");
}

#[test]
fn access_assign_reports_the_field_that_does_not_fit() {
    let mut buf = BitBuffer::from_bitstr("1");
    assert_eq!(AccessAssign::from_bitbuf(&mut buf), Err(PduParseErr::BufferEnded { field: "_header" }));
    assert_eq!(buf.get_pos(), 0);
    let mut buf = BitBuffer::from_bitstr("0100000");
    assert_eq!(AccessAssign::from_bitbuf(&mut buf), Err(PduParseErr::BufferEnded { field: "field1" }));
    assert_eq!(buf.get_pos(), 2);
    let mut buf = BitBuffer::from_bitstr("0100000000000");
    assert_eq!(AccessAssign::from_bitbuf(&mut buf), Err(PduParseErr::BufferEnded { field: "field2" }));
    assert_eq!(buf.get_pos(), 8);
}

#[test]
fn access_assign_default_writes_its_bits() {
    let pdu = AccessAssign::default();
    let mut buf = BitBuffer::new(14);
    pdu.to_bitbuf(&mut buf);
    assert_eq!(buf.dump_bin(), "00000110000110");
    assert_eq!(buf.get_pos(), 14);
}

#[test]
fn access_assign_fr18_roundtrip_and_errors() {
    let pdu = AccessAssignFr18::UplinkCommonAndAssignedTraffic {
        uplink_usage_marker: AccessAssignUlUsage::Traffic(17),
        access_field: AccessField { access_code: AccessCode::AccessCodeC, base_frame_len: BaseFrameLength::Subslots32 },
    };
    let mut buf = BitBuffer::new(14);
    pdu.to_bitbuf(&mut buf);
    assert_eq!(buf.dump_bin(), "11010001101111");
    buf.seek(0);
    assert_eq!(AccessAssignFr18::from_bitbuf(&mut buf), Ok(pdu));

    // Header 11 with the unallocated marker (UMx) is refused.
    let mut buf = BitBuffer::from_bitstr("11000000000000");
    assert_eq!(
        AccessAssignFr18::from_bitbuf(&mut buf),
        Err(PduParseErr::InvalidValue { field: "uplink_usage_marker", value: 0 })
    );
    // Header 11 with a reserved marker is refused.
    let mut buf = BitBuffer::from_bitstr("11000010000000");
    assert_eq!(
        AccessAssignFr18::from_bitbuf(&mut buf),
        Err(PduParseErr::InvalidValue { field: "uplink_usage_marker", value: 2 })
    );

    let mut buf = BitBuffer::from_bitstr("10000001000010");
    assert_eq!(
        AccessAssignFr18::from_bitbuf(&mut buf),
        Ok(AccessAssignFr18::UplinkAssignedOnly {
            access_field_1: AccessField { access_code: AccessCode::AccessCodeA, base_frame_len: BaseFrameLength::CLCHSubslot },
            access_field_2: AccessField { access_code: AccessCode::AccessCodeA, base_frame_len: BaseFrameLength::OngoingFrame },
        })
    );

    let mut buf = BitBuffer::new(14);
    AccessAssignFr18::default().to_bitbuf(&mut buf);
    assert_eq!(buf.dump_bin(), "00000000000000");
}

#[test]
fn access_field_codes() {
    let f = AccessField::try_from(0b10_1011u64).unwrap();
    assert_eq!(f, AccessField { access_code: AccessCode::AccessCodeC, base_frame_len: BaseFrameLength::Subslots12 });
    assert_eq!(f.into_raw(), 0b10_1011);
    assert_eq!(AccessField::try_from(0b1_10_1011u64).unwrap().into_raw(), 0b10_1011);
    assert_eq!(AccessCode::try_from(3u64), Ok(AccessCode::AccessCodeD));
    assert_eq!(AccessCode::try_from(4u64), Err(()));
    assert_eq!(AccessCode::AccessCodeB.into_raw(), 1);
    assert_eq!(BaseFrameLength::try_from(9u64), Ok(BaseFrameLength::Subslots8));
    assert_eq!(BaseFrameLength::try_from(16u64), Err(()));
    assert_eq!(BaseFrameLength::Subslots24.into_raw(), 14);
}

#[test]
fn usage_markers() {
    assert_eq!(AccessAssignDlUsage::from_usage_marker(0), AccessAssignDlUsage::Unallocated);
    assert_eq!(AccessAssignDlUsage::from_usage_marker(1), AccessAssignDlUsage::AssignedControl);
    assert_eq!(AccessAssignDlUsage::from_usage_marker(3), AccessAssignDlUsage::Reserved);
    assert_eq!(AccessAssignDlUsage::from_usage_marker(42), AccessAssignDlUsage::Traffic(42));
    assert_eq!(AccessAssignDlUsage::Traffic(42).to_usage_marker(), 42);
    assert_eq!(AccessAssignUlUsage::from_usage_marker(0), Some(AccessAssignUlUsage::Unallocated));
    assert_eq!(AccessAssignUlUsage::from_usage_marker(2), Some(AccessAssignUlUsage::Reserved(2)));
    assert_eq!(AccessAssignUlUsage::Reserved(2).to_usage_marker(), 2);
    assert_eq!(AccessAssignUlUsage::Reserved(2).to_string(), "Reserved (2)");
    assert_eq!(AccessAssignUlUsage::from_usage_marker(64), None);
    assert_eq!(AccessAssignUlUsage::from_usage_marker(4), Some(AccessAssignUlUsage::Traffic(4)));
    assert!(!AccessAssignUlUsage::Unallocated.is_traffic());
}

#[test]
fn access_assign_text() {
    let af = AccessField { access_code: AccessCode::AccessCodeB, base_frame_len: BaseFrameLength::Subslots1 };
    assert_eq!(af.to_string(), "Access Code: Access Code B, Base Frame Length: 1 Subslot");
    assert_eq!(BaseFrameLength::CLCHSubslot.to_string(), "CLCH Opportunity");
    assert_eq!(BaseFrameLength::Subslots16.to_string(), "16 Subslots");
    assert_eq!(AccessCode::AccessCodeD.to_string(), "Access Code D");
    assert_eq!(
        AccessAssign::default().to_string(),
        "AccessAssign { DL: Common Ctrl, UL: Common Only, af1: Access Code: Access Code A, Base Frame Length: 4 Subslots, af2: Access Code: Access Code A, Base Frame Length: 4 Subslots }"
    );
    let pdu = AccessAssign::DownlinkDefinedUplinkDefined {
        downlink_usage_marker: AccessAssignDlUsage::Traffic(42),
        uplink_usage_marker: AccessAssignUlUsage::Unallocated,
    };
    assert_eq!(pdu.to_string(), "AccessAssign { DL: Traffic (42), UL: Unallocated }");
    let pdu = AccessAssign::DownlinkDefinedUplinkAssignedOnly { downlink_usage_marker: AccessAssignDlUsage::Reserved, access_field: af };
    assert_eq!(pdu.to_string(), "AccessAssign { DL: Reserved, UL: Assigned Only, af: Access Code: Access Code B, Base Frame Length: 1 Subslot }");
    let pdu = AccessAssignFr18::UplinkCommonAndAssignedTraffic { uplink_usage_marker: AccessAssignUlUsage::Traffic(7), access_field: af };
    assert_eq!(
        pdu.to_string(),
        "AccessAssignFr18 { UplinkCommonAndAssignedTraffic: uum: Traffic (7), af: Access Code: Access Code B, Base Frame Length: 1 Subslot }"
    );
    let pdu = AccessAssignFr18::UplinkCommonOnly { access_field_1: af, access_field_2: af };
    assert!(pdu.to_string().starts_with("AccessAssignFr18 { UplinkCommonOnly: af1: Access Code: Access Code B"));
    assert_eq!(AccessAssignDlUsage::AssignedControl.to_string(), "Assigned Control");
}

#[test]
fn bit_text_roundtrip() {
    let text = "1100101";
    let buf = BitBuffer::from_bitstr(text);
    assert_eq!(buf.dump_bin(), text);
    assert_eq!(BitBuffer::from_bitstr(&buf.dump_bin()).dump_bin(), text);
}
