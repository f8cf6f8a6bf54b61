use bluestation::bits::BitBuffer;
use bluestation::pdu_parse_error::PduParseErr;
use bluestation::sndcp::address_type_identifier_in_demand::AddressTypeIdentifierInDemand;
use bluestation::sndcp::nsapi::NSAPI;
use bluestation::sndcp::packet_data_ms_type::PacketDataMSType;
use bluestation::sndcp::pcomp_negotiation::PCOMPNegotiation;
use bluestation::sndcp::sn_activate_pdp_context_demand::SNActivatePdpContextDemand;
use bluestation::sndcp::sn_pdu_type::SNPDUType;
use bluestation::sndcp::sndcp_bs::{Sndcp, SndcpRxOutcome};
use bluestation::sndcp::sndcp_version::SNDCPVersion;
use bluestation::tetra_types::Direction;

const DEMAND_VECTOR: &str = "000000010100000000010001001000100000000101000100111100100000011000010001000110001110100000001000111000000000000011101000011110010111101111000011110101001000101010000010001000111101110000110101111001100110110011001000000100001101001111100110011100100010001001001010011010100010101010100010100100100000101011111010100001100001";

#[test]
fn test_parse_sn_activate_pdp_context_demand() {
    let test_vec = DEMAND_VECTOR;
    let mut buf_in = BitBuffer::from_bitstr(test_vec);

    let pdu = SNActivatePdpContextDemand::from_bitbuf(&mut buf_in, Direction::Ul).unwrap();

    println!("{:#?}", pdu);
}

#[test]
fn demand_vector_fields() {
    let mut buf = BitBuffer::from_bitstr(DEMAND_VECTOR);
    let pdu = SNActivatePdpContextDemand::from_bitbuf(&mut buf, Direction::Ul).unwrap();
    // 0000 pdu type, 0 version, 0 nsapi, 010 address type 2, 1000 ms type,
    // 000 pcomp flags and 00010 reserved, 0 o-bit.
    assert_eq!(pdu.sndcp_version, SNDCPVersion::Reserved);
    assert_eq!(pdu.nsapi, NSAPI::ReservedLow);
    assert_eq!(pdu.address_type_identifier, AddressTypeIdentifierInDemand::IPv6);
    assert_eq!(pdu.ip_address_ipv4, None);
    assert_eq!(pdu.nsapi_b, None);
    assert_eq!(pdu.packet_data_ms_type, PacketDataMSType::Reserved(8));
    assert_eq!(
        pdu.pcomp_negotiation,
        PCOMPNegotiation { vj_tcp_ip_header_compression: false, ip_header_compression: false, other_header_compression: false }
    );
    assert_eq!(pdu.num_vj_comp_state_slots, None);
    assert_eq!(pdu.num_tcp_comp_state_slots, None);
    assert_eq!(pdu.num_non_tcp_comp_state_slots, None);
    assert_eq!(pdu.max_interval_between_full_headers, None);
    assert_eq!(pdu.largest_size_compressed, None);
    assert_eq!(pdu.access_point_name_index, None);
    assert_eq!(pdu.dcomp_negotiation, None);
    assert_eq!(buf.get_pos(), 4 + 1 + 1 + 3 + 4 + 8 + 1);
}

#[test]
fn demand_with_ipv4_and_compression() {
    // pdu type 0, version 1, nsapi 1, address type 0 (IPv4 static), address,
    // ms type 2, pcomp: vj + ip + other, then the counters, o-bit 1, APN index.
    let bits = String::new()
        + "0000" + "1" + "1" + "000"
        + "11000000101010000000000100000001"
        + "0010"
        + "111" + "00000"
        + "00000011"
        + "00000100"
        + "0000000000000101"
        + "00000110"
        + "00000111"
        + "1"
        + "0000000100000000";
    let mut buf = BitBuffer::from_bitstr(&bits);
    let pdu = SNActivatePdpContextDemand::from_bitbuf(&mut buf, Direction::Ul).unwrap();
    assert_eq!(pdu.sndcp_version, SNDCPVersion::Version1);
    assert_eq!(pdu.nsapi, NSAPI::DynamicallyAllocated(1));
    assert_eq!(pdu.address_type_identifier, AddressTypeIdentifierInDemand::IPv4Static);
    assert_eq!(pdu.ip_address_ipv4, Some(0xC0A8_0101));
    assert_eq!(pdu.packet_data_ms_type, PacketDataMSType::TypeC);
    assert_eq!(pdu.num_vj_comp_state_slots, Some(3));
    assert_eq!(pdu.num_tcp_comp_state_slots, Some(4));
    assert_eq!(pdu.num_non_tcp_comp_state_slots, Some(5));
    assert_eq!(pdu.max_interval_between_full_headers, Some(6));
    assert_eq!(pdu.largest_size_compressed, Some(7));
    assert_eq!(pdu.access_point_name_index, Some(256));
    assert_eq!(buf.get_pos(), bits.len());
}

#[test]
fn demand_errors() {
    // Wrong PDU type.
    let mut buf = BitBuffer::from_bitstr("0001");
    assert_eq!(
        SNActivatePdpContextDemand::from_bitbuf(&mut buf, Direction::Ul),
        Err(PduParseErr::InvalidPduType { expected: 0, found: 1 })
    );
    assert_eq!(buf.get_pos(), 4);
    // The version bit is missing.
    let mut buf = BitBuffer::from_bitstr("0000");
    assert_eq!(
        SNActivatePdpContextDemand::from_bitbuf(&mut buf, Direction::Ul),
        Err(PduParseErr::BufferEnded { field: "sndcp_version" })
    );
    assert_eq!(buf.get_pos(), 4);
    // Primary NSAPI with NSAPI b missing.
    let mut buf = BitBuffer::from_bitstr("000010101");
    assert_eq!(
        SNActivatePdpContextDemand::from_bitbuf(&mut buf, Direction::Ul),
        Err(PduParseErr::BufferEnded { field: "nsapi_b" })
    );
    assert_eq!(buf.get_pos(), 9);
    // Empty buffer.
    let mut buf = BitBuffer::from_bitstr("");
    assert_eq!(
        SNActivatePdpContextDemand::from_bitbuf(&mut buf, Direction::Ul),
        Err(PduParseErr::BufferEnded { field: "pdu_type" })
    );
}

#[test]
fn pcomp_negotiation_roundtrip() {
    let p = PCOMPNegotiation { vj_tcp_ip_header_compression: true, ip_header_compression: false, other_header_compression: true };
    let mut buf = BitBuffer::new(8);
    p.to_bitbuf(&mut buf);
    assert_eq!(buf.dump_bin(), "10100000");
    buf.seek(0);
    assert_eq!(PCOMPNegotiation::from_bitbuf(&mut buf), Ok(p));
    assert_eq!(buf.get_pos(), 8);
    // Reserved bits that do not fit are ignored.
    let mut buf = BitBuffer::from_bitstr("011");
    assert_eq!(
        PCOMPNegotiation::from_bitbuf(&mut buf),
        Ok(PCOMPNegotiation { vj_tcp_ip_header_compression: false, ip_header_compression: true, other_header_compression: true })
    );
    assert_eq!(buf.get_pos(), 3);
}

#[test]
fn sndcp_receives_demands() {
    let mut sndcp = Sndcp::new();
    let mut sdu = BitBuffer::from_bitstr(DEMAND_VECTOR);
    match sndcp.rx_sdu(&mut sdu) {
        SndcpRxOutcome::ActivatePdpContextDemand(Ok(pdu)) => assert_eq!(pdu.sndcp_version, SNDCPVersion::Reserved),
        other => panic!("unexpected outcome {:?}", other),
    }
    let mut sdu = BitBuffer::from_bitstr("010");
    assert_eq!(sndcp.rx_sdu(&mut sdu), SndcpRxOutcome::InsufficientBits);
    let mut sdu = BitBuffer::from_bitstr("0101");
    assert_eq!(sndcp.rx_sdu(&mut sdu), SndcpRxOutcome::Unsupported(SNPDUType::Data));
    assert_eq!(sdu.get_pos(), 0);
}

#[test]
fn sn_pdu_type_codes() {
    assert_eq!(SNPDUType::from_raw(0, Direction::Ul), Ok(SNPDUType::ActivatePdpContextDemand));
    assert_eq!(SNPDUType::from_raw(0, Direction::Dl), Ok(SNPDUType::ActivatePdpContextAccept));
    assert_eq!(SNPDUType::from_raw(0, Direction::Both), Err(()));
    assert_eq!(SNPDUType::from_raw(10, Direction::Dl), Ok(SNPDUType::PageRequest));
    assert_eq!(SNPDUType::from_raw(10, Direction::Ul), Ok(SNPDUType::PageResponse));
    assert_eq!(SNPDUType::from_raw(10, Direction::Both), Err(()));
    assert_eq!(SNPDUType::from_raw(13, Direction::Both), Ok(SNPDUType::Modify));
    assert_eq!(SNPDUType::from_raw(15, Direction::Ul), Ok(SNPDUType::Reserved));
    assert_eq!(SNPDUType::Reserved.into_raw(), 14);
    assert_eq!(SNPDUType::PageResponse.into_raw(), 10);
    assert_eq!(SNPDUType::ActivatePdpContextReject.into_raw(), 3);
}

#[test]
fn sndcp_enum_codes_and_text() {
    assert_eq!(AddressTypeIdentifierInDemand::try_from(5u64), Ok(AddressTypeIdentifierInDemand::PrimaryNSAPI));
    assert_eq!(AddressTypeIdentifierInDemand::try_from(200u64), Ok(AddressTypeIdentifierInDemand::Reserved(200)));
    assert_eq!(AddressTypeIdentifierInDemand::try_from(256u64), Err(()));
    assert_eq!(AddressTypeIdentifierInDemand::Reserved(9).into_raw(), 9);
    assert_eq!(u64::from(AddressTypeIdentifierInDemand::IPv6), 2);
    assert_eq!(AddressTypeIdentifierInDemand::Reserved(9).to_string(), "Reserved (9)");
    assert_eq!(AddressTypeIdentifierInDemand::IPv4Static.to_string(), "IPv4 Static");

    assert_eq!(NSAPI::try_from(7u64), Ok(NSAPI::DynamicallyAllocated(7)));
    assert_eq!(NSAPI::try_from(15u64), Ok(NSAPI::ReservedHigh));
    assert_eq!(NSAPI::try_from(16u64), Err(()));
    assert_eq!(u64::from(NSAPI::DynamicallyAllocated(12)), 12);
    assert_eq!(NSAPI::DynamicallyAllocated(12).to_string(), "Dynamically Allocated (12)");
    assert_eq!(NSAPI::ReservedLow.to_string(), "Reserved (0)");

    assert_eq!(PacketDataMSType::try_from(3u64), Ok(PacketDataMSType::TypeD));
    assert_eq!(PacketDataMSType::try_from(11u64), Ok(PacketDataMSType::Reserved(11)));
    assert_eq!(PacketDataMSType::try_from(16u64), Err(()));
    assert_eq!(PacketDataMSType::Reserved(11).into_raw(), 11);
    assert_eq!(u64::from(PacketDataMSType::TypeB), 1);
    assert_eq!(PacketDataMSType::Reserved(11).to_string(), "Reserved (11)");

    assert_eq!(SNDCPVersion::try_from(1u64), Ok(SNDCPVersion::Version1));
    assert_eq!(SNDCPVersion::try_from(2u64), Err(()));
    assert_eq!(u64::from(SNDCPVersion::Reserved), 0);
    assert_eq!(SNDCPVersion::Version1.into_raw(), 1);
    assert_eq!(SNDCPVersion::Version1.to_string(), "Version 1");
}
