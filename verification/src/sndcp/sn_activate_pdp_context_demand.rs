use vstd::prelude::*;
use crate::bits::{BitBuffer, spec_read_field, bits_to_nat, lemma_bits_to_nat_bound};
use crate::pdu_parse_error::PduParseErr;
use crate::sndcp::address_type_identifier_in_demand::AddressTypeIdentifierInDemand;
use crate::sndcp::nsapi::NSAPI;
use crate::sndcp::packet_data_ms_type::PacketDataMSType;
use crate::sndcp::pcomp_negotiation::PCOMPNegotiation;
use crate::sndcp::sn_pdu_type::SNPDUType;
use crate::sndcp::sndcp_version::SNDCPVersion;
use crate::tetra_types::Direction;

verus! {

/// Placeholder for an optional element that is not decoded yet.
#[derive(Debug, Clone, Copy, PartialEq, Eq)]
pub struct UndecodedElement;

/// SN-ACTIVATE PDP CONTEXT DEMAND PDU (clause 28.3.3.1).
#[derive(Debug, Clone, Copy, PartialEq, Eq)]
pub struct SNActivatePdpContextDemand {
    /// Type 1, 1 bit, SNDCP version.
    pub sndcp_version: SNDCPVersion,
    /// Type 1, 1 bit, NSAPI.
    pub nsapi: NSAPI,
    /// Type 1, 3 bits, address type identifier in demand.
    pub address_type_identifier: AddressTypeIdentifierInDemand,
    /// Conditional, 32 bits, IPv4 address: present where the address type is IPv4 static.
    pub ip_address_ipv4: Option<u32>,
    /// Conditional, 4 bits, NSAPI of the primary PDP context: present where the
    /// address type is "primary NSAPI" (secondary PDP context requested).
    pub nsapi_b: Option<NSAPI>,
    /// Type 1, 4 bits, packet data MS type.
    pub packet_data_ms_type: PacketDataMSType,
    /// Type 1, 8 bits, PCOMP negotiation.
    pub pcomp_negotiation: PCOMPNegotiation,
    /// Conditional on Van Jacobson compression, 8 bits, number of VJ compression state slots.
    pub num_vj_comp_state_slots: Option<u8>,
    /// Conditional on IP header compression, 8 bits, number of TCP compression state slots.
    pub num_tcp_comp_state_slots: Option<u8>,
    /// Conditional on IP header compression, 16 bits, number of non-TCP compression state slots.
    pub num_non_tcp_comp_state_slots: Option<u16>,
    /// Conditional on other header compression, 8 bits, maximum interval between full headers.
    pub max_interval_between_full_headers: Option<u8>,
    /// Conditional on IP header compression, 8 bits, largest size in octets that may be compressed.
    pub largest_size_compressed: Option<u8>,
    /// Type 2, optional, 16 bits, access point name index.
    pub access_point_name_index: Option<u16>,
    /// Type 3, optional, DCOMP negotiation (not decoded).
    pub dcomp_negotiation: Option<UndecodedElement>,
    /// Type 3, optional, protocol configuration options (not decoded).
    pub protocol_configuration_options: Option<UndecodedElement>,
    /// Type 3, optional, quality of service (not decoded).
    pub quality_of_service: Option<UndecodedElement>,
}

/// The leading type-1 and conditional elements: SNDCP version, NSAPI, address
/// type identifier, IPv4 address, NSAPI of the primary context, packet data MS type.
pub type DemandHead = (SNDCPVersion, NSAPI, AddressTypeIdentifierInDemand, Option<u32>, Option<NSAPI>, PacketDataMSType);

/// The compression elements: PCOMP negotiation and the five counters that depend on it.
pub type DemandCompression = (PCOMPNegotiation, Option<u8>, Option<u8>, Option<u16>, Option<u8>, Option<u8>);

/// Reads a field and decodes it through `decoded`, which gives `None` for a
/// value that the field's type does not admit; such a value fails with
/// `InvalidValue` for the field, after the field.
pub open spec fn spec_checked<T>(read: (Result<u64, PduParseErr>, nat), decoded: Option<T>, field: &'static str) -> (Result<T, PduParseErr>, nat) {
    match read.0 {
        Err(e) => (Err(e), read.1),
        Ok(v) => match decoded {
            Some(t) => (Ok(t), read.1),
            None => (Err(PduParseErr::InvalidValue { field, value: v }), read.1),
        },
    }
}

/// Reads a field where `present` holds; otherwise reads nothing.
pub open spec fn spec_optional(s: Seq<bool>, p: nat, present: bool, n: nat, field: &'static str) -> (Result<Option<u64>, PduParseErr>, nat) {
    if present {
        let (r, q) = spec_read_field(s, p, n, field);
        match r {
            Err(e) => (Err(e), q),
            Ok(v) => (Ok(Some(v)), q),
        }
    } else {
        (Ok(None), p)
    }
}

pub open spec fn spec_read_version(s: Seq<bool>, p: nat) -> (Result<SNDCPVersion, PduParseErr>, nat) {
    let read = spec_read_field(s, p, 1, "sndcp_version");
    spec_checked(read, SNDCPVersion::spec_from_raw(read.0.unwrap()).ok(), "sndcp_version")
}

pub open spec fn spec_read_nsapi(s: Seq<bool>, p: nat, n: nat, field: &'static str) -> (Result<NSAPI, PduParseErr>, nat) {
    let read = spec_read_field(s, p, n, field);
    spec_checked(read, NSAPI::spec_from_raw(read.0.unwrap()).ok(), field)
}

pub open spec fn spec_read_address_type(s: Seq<bool>, p: nat) -> (Result<AddressTypeIdentifierInDemand, PduParseErr>, nat) {
    let read = spec_read_field(s, p, 3, "address_type_identifier");
    spec_checked(read, AddressTypeIdentifierInDemand::spec_from_raw(read.0.unwrap()).ok(), "address_type_identifier")
}

pub open spec fn spec_read_ms_type(s: Seq<bool>, p: nat) -> (Result<PacketDataMSType, PduParseErr>, nat) {
    let read = spec_read_field(s, p, 4, "packet_data_ms_type");
    spec_checked(read, PacketDataMSType::spec_from_raw(read.0.unwrap()).ok(), "packet_data_ms_type")
}

/// The PDU type field: 4 bits that must hold the code of the PDP context
/// activation types (0).
pub open spec fn spec_read_pdu_type(s: Seq<bool>, p: nat) -> (Result<(), PduParseErr>, nat) {
    let (r, q) = spec_read_field(s, p, 4, "pdu_type");
    match r {
        Err(e) => (Err(e), q),
        Ok(t) => if t == SNPDUType::ActivatePdpContextAccept.spec_raw() {
            (Ok(()), q)
        } else {
            (Err(PduParseErr::InvalidPduType { expected: SNPDUType::ActivatePdpContextAccept.spec_raw(), found: t }), q)
        },
    }
}

/// Decoding the leading elements from position `p0` of `s`.
pub open spec fn spec_parse_head(s: Seq<bool>, p0: nat) -> (Result<DemandHead, PduParseErr>, nat) {
    let (version, p1) = spec_read_version(s, p0);
    let (nsapi, p2) = spec_read_nsapi(s, p1, 1, "nsapi");
    let (atid, p3) = spec_read_address_type(s, p2);
    let is_v4 = atid.unwrap() == AddressTypeIdentifierInDemand::IPv4Static;
    let is_primary = atid.unwrap() == AddressTypeIdentifierInDemand::PrimaryNSAPI;
    let (ip, p4) = spec_optional(s, p3, is_v4, 32, "ip_address_ipv4");
    let (nsapi_b, p5) = if is_primary {
        let (r, q) = spec_read_nsapi(s, p4, 4, "nsapi_b");
        (match r { Ok(n) => Ok(Some(n)), Err(e) => Err(e) }, q)
    } else {
        (Ok(None), p4)
    };
    let (ms_type, p6) = spec_read_ms_type(s, p5);
    if version is Err {
        (Err(version->Err_0), p1)
    } else if nsapi is Err {
        (Err(nsapi->Err_0), p2)
    } else if atid is Err {
        (Err(atid->Err_0), p3)
    } else if ip is Err {
        (Err(ip->Err_0), p4)
    } else if nsapi_b is Err {
        (Err(nsapi_b->Err_0), p5)
    } else if ms_type is Err {
        (Err(ms_type->Err_0), p6)
    } else {
        (Ok((version->Ok_0, nsapi->Ok_0, atid->Ok_0,
            match ip->Ok_0 { Some(v) => Some(v as u32), None => None },
            nsapi_b->Ok_0, ms_type->Ok_0)), p6)
    }
}

/// Decoding the compression elements from position `p0` of `s`.
pub open spec fn spec_parse_compression(s: Seq<bool>, p0: nat) -> (Result<DemandCompression, PduParseErr>, nat) {
    let (pcomp, p1) = PCOMPNegotiation::spec_parse(s, p0);
    let pc = pcomp.unwrap();
    let (vj, p2) = spec_optional(s, p1, pc.vj_tcp_ip_header_compression, 8, "num_vj_comp_state_slots");
    let (tcp, p3) = spec_optional(s, p2, pc.ip_header_compression, 8, "num_tcp_comp_state_slots");
    let (non_tcp, p4) = spec_optional(s, p3, pc.ip_header_compression, 16, "num_non_tcp_comp_state_slots");
    let (interval, p5) = spec_optional(s, p4, pc.other_header_compression, 8, "max_interval_between_full_headers");
    let (largest, p6) = spec_optional(s, p5, pc.ip_header_compression, 8, "largest_size_compressed");
    if pcomp is Err {
        (Err(pcomp->Err_0), p1)
    } else if vj is Err {
        (Err(vj->Err_0), p2)
    } else if tcp is Err {
        (Err(tcp->Err_0), p3)
    } else if non_tcp is Err {
        (Err(non_tcp->Err_0), p4)
    } else if interval is Err {
        (Err(interval->Err_0), p5)
    } else if largest is Err {
        (Err(largest->Err_0), p6)
    } else {
        (Ok((pc,
            match vj->Ok_0 { Some(v) => Some(v as u8), None => None },
            match tcp->Ok_0 { Some(v) => Some(v as u8), None => None },
            match non_tcp->Ok_0 { Some(v) => Some(v as u16), None => None },
            match interval->Ok_0 { Some(v) => Some(v as u8), None => None },
            match largest->Ok_0 { Some(v) => Some(v as u8), None => None })), p6)
    }
}

/// Decoding the type-2 elements from position `p0` of `s`: the o-bit and,
/// where it is set, the access point name index.
pub open spec fn spec_parse_optionals(s: Seq<bool>, p0: nat) -> (Result<Option<u16>, PduParseErr>, nat) {
    let (obit, p1) = spec_read_field(s, p0, 1, "o_bit");
    let (apn, p2) = spec_optional(s, p1, obit.unwrap() != 0, 16, "access_point_name_index");
    if obit is Err {
        (Err(obit->Err_0), p1)
    } else if apn is Err {
        (Err(apn->Err_0), p2)
    } else {
        (Ok(match apn->Ok_0 { Some(v) => Some(v as u16), None => None }), p2)
    }
}

impl SNActivatePdpContextDemand {
    /// Decoding the PDU from position `p0` of `s`: the PDU type, then the
    /// leading, compression and type-2 elements. Also gives the position
    /// where decoding stopped.
    pub open spec fn spec_parse(s: Seq<bool>, p0: nat) -> (Result<SNActivatePdpContextDemand, PduParseErr>, nat) {
        let (t, p1) = spec_read_pdu_type(s, p0);
        let (head, p2) = spec_parse_head(s, p1);
        let (comp, p3) = spec_parse_compression(s, p2);
        let (opt, p4) = spec_parse_optionals(s, p3);
        if t is Err {
            (Err(t->Err_0), p1)
        } else if head is Err {
            (Err(head->Err_0), p2)
        } else if comp is Err {
            (Err(comp->Err_0), p3)
        } else if opt is Err {
            (Err(opt->Err_0), p4)
        } else {
            let h = head->Ok_0;
            let c = comp->Ok_0;
            (Ok(SNActivatePdpContextDemand {
                sndcp_version: h.0,
                nsapi: h.1,
                address_type_identifier: h.2,
                ip_address_ipv4: h.3,
                nsapi_b: h.4,
                packet_data_ms_type: h.5,
                pcomp_negotiation: c.0,
                num_vj_comp_state_slots: c.1,
                num_tcp_comp_state_slots: c.2,
                num_non_tcp_comp_state_slots: c.3,
                max_interval_between_full_headers: c.4,
                largest_size_compressed: c.5,
                access_point_name_index: opt->Ok_0,
                dcomp_negotiation: None,
                protocol_configuration_options: None,
                quality_of_service: None,
            }), p4)
        }
    }

    /// Number of bits of the PDU as decoded: the PDU type, every element that
    /// is present, and the five reserved bits of the PCOMP negotiation.
    pub open spec fn spec_bit_len(self) -> nat {
        4 + 1 + 1 + 3
            + (if self.ip_address_ipv4 is Some { 32nat } else { 0 })
            + (if self.nsapi_b is Some { 4nat } else { 0 })
            + 4 + 8
            + (if self.num_vj_comp_state_slots is Some { 8nat } else { 0 })
            + (if self.num_tcp_comp_state_slots is Some { 8nat } else { 0 })
            + (if self.num_non_tcp_comp_state_slots is Some { 16nat } else { 0 })
            + (if self.max_interval_between_full_headers is Some { 8nat } else { 0 })
            + (if self.largest_size_compressed is Some { 8nat } else { 0 })
            + 1
            + (if self.access_point_name_index is Some { 16nat } else { 0 })
    }

    /// Decodes the PDU from the buffer's position on, the PDU type included.
    /// On failure the position is where decoding stopped. The direction is
    /// not consulted.
    pub fn from_bitbuf(buffer: &mut BitBuffer, direction: Direction) -> (res: Result<SNActivatePdpContextDemand, PduParseErr>)
        ensures
            final(buffer).spec_bits() == old(buffer).spec_bits(),
            (res, final(buffer).spec_pos()) == SNActivatePdpContextDemand::spec_parse(old(buffer).spec_bits(), old(buffer).spec_pos()),
    {
        // The PDU type should still be present, so it is checked here.
        match read_pdu_type(buffer) {
            Ok(()) => {},
            Err(e) => return Err(e),
        }
        let head = match parse_head(buffer) {
            Ok(h) => h,
            Err(e) => return Err(e),
        };
        let comp = match parse_compression(buffer) {
            Ok(c) => c,
            Err(e) => return Err(e),
        };
        let access_point_name_index = match parse_optionals(buffer) {
            Ok(a) => a,
            Err(e) => return Err(e),
        };
        // The type-3 elements are not decoded yet.
        Ok(SNActivatePdpContextDemand {
            sndcp_version: head.0,
            nsapi: head.1,
            address_type_identifier: head.2,
            ip_address_ipv4: head.3,
            nsapi_b: head.4,
            packet_data_ms_type: head.5,
            pcomp_negotiation: comp.0,
            num_vj_comp_state_slots: comp.1,
            num_tcp_comp_state_slots: comp.2,
            num_non_tcp_comp_state_slots: comp.3,
            max_interval_between_full_headers: comp.4,
            largest_size_compressed: comp.5,
            access_point_name_index,
            dcomp_negotiation: None,
            protocol_configuration_options: None,
            quality_of_service: None,
        })
    }
}

/// A decoded head spans the fields it holds.
proof fn lemma_head_length(s: Seq<bool>, p0: nat)
    ensures
        spec_parse_head(s, p0).0 matches Ok(h) ==> spec_parse_head(s, p0).1 == p0 + 1 + 1 + 3
            + (if h.3 is Some { 32nat } else { 0 }) + (if h.4 is Some { 4nat } else { 0 }) + 4
            && spec_parse_head(s, p0).1 <= s.len(),
{
}

/// Decoded compression elements span the flags, the reserved bits where they
/// fit, and the counters they hold.
proof fn lemma_compression_length(s: Seq<bool>, p0: nat)
    ensures
        spec_parse_compression(s, p0).0 matches Ok(c) ==> {
            let p = spec_parse_compression(s, p0).1;
            let counters = (if c.1 is Some { 8nat } else { 0 }) + (if c.2 is Some { 8nat } else { 0 })
                + (if c.3 is Some { 16nat } else { 0 }) + (if c.4 is Some { 8nat } else { 0 })
                + (if c.5 is Some { 8nat } else { 0 });
            &&& p <= s.len()
            &&& (p == p0 + 8 + counters || (p == p0 + 3 + counters && p0 + 8 > s.len()))
        },
{
}

/// Decoded type-2 elements span the o-bit and the index where present.
proof fn lemma_optionals_length(s: Seq<bool>, p0: nat)
    ensures
        spec_parse_optionals(s, p0).0 matches Ok(a) ==> spec_parse_optionals(s, p0).1 == p0 + 1
            + (if a is Some { 16nat } else { 0 })
            && spec_parse_optionals(s, p0).1 <= s.len(),
{
}

/// A decoded PDU spans exactly its bits where they all fit; otherwise only
/// the reserved bits of the PCOMP negotiation, which did not fit, are missing.
pub proof fn lemma_demand_length(s: Seq<bool>, p0: nat)
    ensures
        SNActivatePdpContextDemand::spec_parse(s, p0).0 matches Ok(d) ==> {
            let p = SNActivatePdpContextDemand::spec_parse(s, p0).1;
            &&& p <= s.len()
            &&& (p0 + d.spec_bit_len() <= s.len() ==> p == p0 + d.spec_bit_len())
            &&& (p0 + d.spec_bit_len() > s.len() ==> p + 5 == p0 + d.spec_bit_len())
        },
{
    let p1 = spec_read_pdu_type(s, p0).1;
    let p2 = spec_parse_head(s, p1).1;
    let p3 = spec_parse_compression(s, p2).1;
    lemma_head_length(s, p1);
    lemma_compression_length(s, p2);
    lemma_optionals_length(s, p3);
}

/// Which conditional elements a decoded PDU holds: the IPv4 address exactly
/// for address type "IPv4 static"; NSAPI b exactly for "primary NSAPI"; the
/// Van Jacobson slot count exactly where VJ compression is negotiated; the
/// TCP and non-TCP slot counts and the largest compressed size exactly where
/// IP header compression is; the maximum interval between full headers
/// exactly where other header compression is.
pub proof fn lemma_demand_conditional_elements(s: Seq<bool>, p0: nat)
    ensures
        SNActivatePdpContextDemand::spec_parse(s, p0).0 matches Ok(d) ==> {
            &&& (d.ip_address_ipv4 is Some <==> d.address_type_identifier == AddressTypeIdentifierInDemand::IPv4Static)
            &&& (d.nsapi_b is Some <==> d.address_type_identifier == AddressTypeIdentifierInDemand::PrimaryNSAPI)
            &&& (d.num_vj_comp_state_slots is Some <==> d.pcomp_negotiation.vj_tcp_ip_header_compression)
            &&& (d.num_tcp_comp_state_slots is Some <==> d.pcomp_negotiation.ip_header_compression)
            &&& (d.num_non_tcp_comp_state_slots is Some <==> d.pcomp_negotiation.ip_header_compression)
            &&& (d.max_interval_between_full_headers is Some <==> d.pcomp_negotiation.other_header_compression)
            &&& (d.largest_size_compressed is Some <==> d.pcomp_negotiation.ip_header_compression)
            &&& d.dcomp_negotiation is None
            &&& d.protocol_configuration_options is None
            &&& d.quality_of_service is None
        },
{
}

/// The `width` bits of `s` from `start` on, as a number.
pub open spec fn bits_at(s: Seq<bool>, start: nat, width: nat) -> nat {
    bits_to_nat(s.subrange(start as int, (start + width) as int))
}

/// A field of at most 32 bits that fits in `s` reads as its number.
proof fn lemma_read_value(s: Seq<bool>, p: nat, n: nat)
    requires
        n <= 32,
        p + n <= s.len(),
    ensures
        spec_read_field(s, p, n, "").0 matches Ok(v) && v == bits_at(s, p, n),
        bits_at(s, p, n) < vstd::arithmetic::power2::pow2(n),
        vstd::arithmetic::power2::pow2(n) <= 0x1_0000_0000,
{
    lemma_bits_to_nat_bound(s.subrange(p as int, (p + n) as int));
    vstd::arithmetic::power2::lemma2_to64();
    crate::bits::lemma_pow2_monotone(n, 32);
}

/// Where the leading elements lie: the SNDCP version in the first bit, the
/// NSAPI in the next, the address type identifier in the three after; then
/// the IPv4 address (32 bits) or NSAPI b (4 bits) where present; then the
/// packet data MS type (4 bits).
proof fn lemma_head_positions(s: Seq<bool>, p0: nat)
    ensures
        spec_parse_head(s, p0).0 matches Ok(h) ==> {
            let m = p0 + 5 + (if h.3 is Some { 32nat } else { 0 }) + (if h.4 is Some { 4nat } else { 0 });
            &&& h.0.spec_raw() == bits_at(s, p0, 1)
            &&& h.1.spec_raw() == bits_at(s, p0 + 1, 1)
            &&& h.2.spec_raw() == bits_at(s, p0 + 2, 3)
            &&& (h.3 matches Some(ip) ==> ip == bits_at(s, p0 + 5, 32))
            &&& (h.4 matches Some(n) ==> n.spec_raw() == bits_at(s, p0 + 5, 4))
            &&& h.5.spec_raw() == bits_at(s, m, 4)
        },
{
    if spec_parse_head(s, p0).0 is Ok {
        let h = spec_parse_head(s, p0).0->Ok_0;
        lemma_head_length(s, p0);
        lemma_read_value(s, p0, 1);
        lemma_read_value(s, p0 + 1, 1);
        lemma_read_value(s, p0 + 2, 3);
        crate::sndcp::sndcp_version::lemma_sndcp_version_roundtrip(h.0, bits_at(s, p0, 1) as u64);
        crate::sndcp::nsapi::lemma_nsapi_roundtrip(h.1, bits_at(s, p0 + 1, 1) as u64);
        crate::sndcp::address_type_identifier_in_demand::lemma_address_type_identifier_roundtrip(h.2, bits_at(s, p0 + 2, 3) as u64);
        let m = p0 + 5 + (if h.3 is Some { 32nat } else { 0 }) + (if h.4 is Some { 4nat } else { 0 });
        if h.3 is Some {
            lemma_read_value(s, p0 + 5, 32);
        }
        if h.4 is Some {
            lemma_read_value(s, p0 + 5, 4);
            crate::sndcp::nsapi::lemma_nsapi_roundtrip(h.4->Some_0, bits_at(s, p0 + 5, 4) as u64);
        }
        lemma_read_value(s, m, 4);
        crate::sndcp::packet_data_ms_type::lemma_packet_data_ms_type_roundtrip(h.5, bits_at(s, m, 4) as u64);
    }
}

/// Where the compression elements lie, where the whole PCOMP negotiation
/// fits: its three flags in its first three bits, then after its eight bits
/// the counters that are present, in order: VJ slots (8 bits), TCP slots (8),
/// non-TCP slots (16), maximum interval (8), largest compressed size (8).
proof fn lemma_compression_positions(s: Seq<bool>, p0: nat)
    ensures
        spec_parse_compression(s, p0).0 matches Ok(c) ==> p0 + 8 <= s.len() ==> {
            let c0 = p0 + 8;
            let c1 = c0 + (if c.1 is Some { 8nat } else { 0 });
            let c2 = c1 + (if c.2 is Some { 8nat } else { 0 });
            let c3 = c2 + (if c.3 is Some { 16nat } else { 0 });
            let c4 = c3 + (if c.4 is Some { 8nat } else { 0 });
            &&& c.0.vj_tcp_ip_header_compression == (bits_at(s, p0, 1) == 1)
            &&& c.0.ip_header_compression == (bits_at(s, p0 + 1, 1) == 1)
            &&& c.0.other_header_compression == (bits_at(s, p0 + 2, 1) == 1)
            &&& (c.1 matches Some(v) ==> v == bits_at(s, c0, 8))
            &&& (c.2 matches Some(v) ==> v == bits_at(s, c1, 8))
            &&& (c.3 matches Some(v) ==> v == bits_at(s, c2, 16))
            &&& (c.4 matches Some(v) ==> v == bits_at(s, c3, 8))
            &&& (c.5 matches Some(v) ==> v == bits_at(s, c4, 8))
        },
{
    vstd::arithmetic::power2::lemma2_to64();
    if spec_parse_compression(s, p0).0 is Ok && p0 + 8 <= s.len() {
        let c = spec_parse_compression(s, p0).0->Ok_0;
        lemma_read_value(s, p0, 1);
        lemma_read_value(s, p0 + 1, 1);
        lemma_read_value(s, p0 + 2, 1);
        let c0 = p0 + 8;
        let c1 = c0 + (if c.1 is Some { 8nat } else { 0 });
        let c2 = c1 + (if c.2 is Some { 8nat } else { 0 });
        let c3 = c2 + (if c.3 is Some { 16nat } else { 0 });
        let c4 = c3 + (if c.4 is Some { 8nat } else { 0 });
        if c.1 is Some { lemma_read_value(s, c0, 8); }
        if c.2 is Some { lemma_read_value(s, c1, 8); }
        if c.3 is Some { lemma_read_value(s, c2, 16); }
        if c.4 is Some { lemma_read_value(s, c3, 8); }
        if c.5 is Some { lemma_read_value(s, c4, 8); }
    }
}

/// Where the type-2 elements lie: the o-bit first, then, where it is set,
/// the access point name index (16 bits).
proof fn lemma_optionals_positions(s: Seq<bool>, p0: nat)
    ensures
        spec_parse_optionals(s, p0).0 matches Ok(a) ==> {
            &&& (a is Some) == (bits_at(s, p0, 1) == 1)
            &&& (a matches Some(v) ==> v == bits_at(s, p0 + 1, 16))
        },
{
    vstd::arithmetic::power2::lemma2_to64();
    if spec_parse_optionals(s, p0).0 is Ok {
        lemma_read_value(s, p0, 1);
        if spec_parse_optionals(s, p0).0->Ok_0 is Some {
            lemma_read_value(s, p0 + 1, 16);
        }
    }
}

/// Where each element of a decoded SN-ACTIVATE PDP CONTEXT DEMAND lies,
/// counted from the PDU type at `p0`: the SNDCP version in bit 4, the NSAPI
/// in bit 5, the address type identifier in bits 6..9; the IPv4 address or
/// NSAPI b from bit 9 where present; the packet data MS type in the 4 bits
/// after them, the three PCOMP flags in the 3 bits after that; where the
/// whole PDU fits, after the 8 PCOMP bits each present counter in order (VJ
/// slots, TCP slots, non-TCP slots, maximum interval, largest compressed
/// size), then the o-bit, set exactly where the access point name index
/// follows in 16 bits.
pub proof fn lemma_demand_element_positions(s: Seq<bool>, p0: nat)
    ensures
        SNActivatePdpContextDemand::spec_parse(s, p0).0 matches Ok(d) ==> {
            let m = p0 + 9 + (if d.ip_address_ipv4 is Some { 32nat } else { 0 })
                + (if d.nsapi_b is Some { 4nat } else { 0 });
            let c0 = m + 12;
            let c1 = c0 + (if d.num_vj_comp_state_slots is Some { 8nat } else { 0 });
            let c2 = c1 + (if d.num_tcp_comp_state_slots is Some { 8nat } else { 0 });
            let c3 = c2 + (if d.num_non_tcp_comp_state_slots is Some { 16nat } else { 0 });
            let c4 = c3 + (if d.max_interval_between_full_headers is Some { 8nat } else { 0 });
            let o = c4 + (if d.largest_size_compressed is Some { 8nat } else { 0 });
            &&& bits_at(s, p0, 4) == 0
            &&& d.sndcp_version.spec_raw() == bits_at(s, p0 + 4, 1)
            &&& d.nsapi.spec_raw() == bits_at(s, p0 + 5, 1)
            &&& d.address_type_identifier.spec_raw() == bits_at(s, p0 + 6, 3)
            &&& (d.ip_address_ipv4 matches Some(ip) ==> ip == bits_at(s, p0 + 9, 32))
            &&& (d.nsapi_b matches Some(n) ==> n.spec_raw() == bits_at(s, p0 + 9, 4))
            &&& d.packet_data_ms_type.spec_raw() == bits_at(s, m, 4)
            &&& d.pcomp_negotiation.vj_tcp_ip_header_compression == (bits_at(s, m + 4, 1) == 1)
            &&& d.pcomp_negotiation.ip_header_compression == (bits_at(s, m + 5, 1) == 1)
            &&& d.pcomp_negotiation.other_header_compression == (bits_at(s, m + 6, 1) == 1)
            &&& (p0 + d.spec_bit_len() <= s.len() ==> {
                &&& (d.num_vj_comp_state_slots matches Some(v) ==> v == bits_at(s, c0, 8))
                &&& (d.num_tcp_comp_state_slots matches Some(v) ==> v == bits_at(s, c1, 8))
                &&& (d.num_non_tcp_comp_state_slots matches Some(v) ==> v == bits_at(s, c2, 16))
                &&& (d.max_interval_between_full_headers matches Some(v) ==> v == bits_at(s, c3, 8))
                &&& (d.largest_size_compressed matches Some(v) ==> v == bits_at(s, c4, 8))
                &&& (d.access_point_name_index is Some) == (bits_at(s, o, 1) == 1)
                &&& (d.access_point_name_index matches Some(v) ==> v == bits_at(s, o + 1, 16))
            })
        },
{
    if SNActivatePdpContextDemand::spec_parse(s, p0).0 is Ok {
        let d = SNActivatePdpContextDemand::spec_parse(s, p0).0->Ok_0;
        vstd::arithmetic::power2::lemma2_to64();
        lemma_read_value(s, p0, 4);
        let p1 = p0 + 4;
        let p2 = spec_parse_head(s, p1).1;
        let p3 = spec_parse_compression(s, p2).1;
        lemma_head_length(s, p1);
        lemma_head_positions(s, p1);
        lemma_read_value(s, p2, 3);
        lemma_compression_length(s, p2);
        lemma_optionals_length(s, p3);
        lemma_demand_length(s, p0);
        if p0 + d.spec_bit_len() <= s.len() {
            lemma_compression_positions(s, p2);
            lemma_optionals_positions(s, p3);
        }
    }
}

fn read_pdu_type(buffer: &mut BitBuffer) -> (res: Result<(), PduParseErr>)
    ensures
        final(buffer).spec_bits() == old(buffer).spec_bits(),
        (res, final(buffer).spec_pos()) == spec_read_pdu_type(old(buffer).spec_bits(), old(buffer).spec_pos()),
{
    let pdu_type_raw = match buffer.read_field(4, "pdu_type") {
        Ok(v) => v,
        Err(e) => return Err(e),
    };
    let expected = SNPDUType::ActivatePdpContextAccept.into_raw();
    if pdu_type_raw == expected {
        Ok(())
    } else {
        Err(PduParseErr::InvalidPduType { expected, found: pdu_type_raw })
    }
}

fn read_version(buffer: &mut BitBuffer) -> (res: Result<SNDCPVersion, PduParseErr>)
    ensures
        final(buffer).spec_bits() == old(buffer).spec_bits(),
        (res, final(buffer).spec_pos()) == spec_read_version(old(buffer).spec_bits(), old(buffer).spec_pos()),
{
    let raw = match buffer.read_field(1, "sndcp_version") {
        Ok(v) => v,
        Err(e) => return Err(e),
    };
    match SNDCPVersion::try_from(raw) {
        Ok(v) => Ok(v),
        Err(_) => Err(PduParseErr::InvalidValue { field: "sndcp_version", value: raw }),
    }
}

fn read_nsapi(buffer: &mut BitBuffer, n: usize, field: &'static str) -> (res: Result<NSAPI, PduParseErr>)
    requires
        n <= 64,
    ensures
        final(buffer).spec_bits() == old(buffer).spec_bits(),
        (res, final(buffer).spec_pos()) == spec_read_nsapi(old(buffer).spec_bits(), old(buffer).spec_pos(), n as nat, field),
{
    let raw = match buffer.read_field(n, field) {
        Ok(v) => v,
        Err(e) => return Err(e),
    };
    match NSAPI::try_from(raw) {
        Ok(v) => Ok(v),
        Err(_) => Err(PduParseErr::InvalidValue { field, value: raw }),
    }
}

fn read_address_type(buffer: &mut BitBuffer) -> (res: Result<AddressTypeIdentifierInDemand, PduParseErr>)
    ensures
        final(buffer).spec_bits() == old(buffer).spec_bits(),
        (res, final(buffer).spec_pos()) == spec_read_address_type(old(buffer).spec_bits(), old(buffer).spec_pos()),
{
    let raw = match buffer.read_field(3, "address_type_identifier") {
        Ok(v) => v,
        Err(e) => return Err(e),
    };
    match AddressTypeIdentifierInDemand::try_from(raw) {
        Ok(v) => Ok(v),
        Err(_) => Err(PduParseErr::InvalidValue { field: "address_type_identifier", value: raw }),
    }
}

fn read_ms_type(buffer: &mut BitBuffer) -> (res: Result<PacketDataMSType, PduParseErr>)
    ensures
        final(buffer).spec_bits() == old(buffer).spec_bits(),
        (res, final(buffer).spec_pos()) == spec_read_ms_type(old(buffer).spec_bits(), old(buffer).spec_pos()),
{
    let raw = match buffer.read_field(4, "packet_data_ms_type") {
        Ok(v) => v,
        Err(e) => return Err(e),
    };
    match PacketDataMSType::try_from(raw) {
        Ok(v) => Ok(v),
        Err(_) => Err(PduParseErr::InvalidValue { field: "packet_data_ms_type", value: raw }),
    }
}

fn read_optional(buffer: &mut BitBuffer, present: bool, n: usize, field: &'static str) -> (res: Result<Option<u64>, PduParseErr>)
    requires
        n <= 64,
    ensures
        final(buffer).spec_bits() == old(buffer).spec_bits(),
        (res, final(buffer).spec_pos()) == spec_optional(old(buffer).spec_bits(), old(buffer).spec_pos(), present, n as nat, field),
        res matches Ok(Some(v)) ==> v < vstd::arithmetic::power2::pow2(n as nat),
{
    if present {
        let ghost s = buffer.spec_bits();
        let ghost p = buffer.spec_pos();
        match buffer.read_field(n, field) {
            Ok(v) => {
                proof {
                    crate::bits::lemma_bits_to_nat_bound(s.subrange(p as int, (p + n) as int));
                }
                Ok(Some(v))
            },
            Err(e) => Err(e),
        }
    } else {
        Ok(None)
    }
}

fn parse_head(buffer: &mut BitBuffer) -> (res: Result<DemandHead, PduParseErr>)
    ensures
        final(buffer).spec_bits() == old(buffer).spec_bits(),
        (res, final(buffer).spec_pos()) == spec_parse_head(old(buffer).spec_bits(), old(buffer).spec_pos()),
{
    let sndcp_version = match read_version(buffer) {
        Ok(v) => v,
        Err(e) => return Err(e),
    };
    let nsapi = match read_nsapi(buffer, 1, "nsapi") {
        Ok(v) => v,
        Err(e) => return Err(e),
    };
    let address_type_identifier = match read_address_type(buffer) {
        Ok(v) => v,
        Err(e) => return Err(e),
    };
    // Conditional on the address type identifier.
    let is_v4 = matches!(address_type_identifier, AddressTypeIdentifierInDemand::IPv4Static);
    let ip_address_ipv4 = match read_optional(buffer, is_v4, 32, "ip_address_ipv4") {
        Ok(Some(v)) => Some(v as u32),
        Ok(None) => None,
        Err(e) => return Err(e),
    };
    // Conditional on the address type identifier.
    let nsapi_b = if matches!(address_type_identifier, AddressTypeIdentifierInDemand::PrimaryNSAPI) {
        match read_nsapi(buffer, 4, "nsapi_b") {
            Ok(v) => Some(v),
            Err(e) => return Err(e),
        }
    } else {
        None
    };
    let packet_data_ms_type = match read_ms_type(buffer) {
        Ok(v) => v,
        Err(e) => return Err(e),
    };
    Ok((sndcp_version, nsapi, address_type_identifier, ip_address_ipv4, nsapi_b, packet_data_ms_type))
}

fn parse_compression(buffer: &mut BitBuffer) -> (res: Result<DemandCompression, PduParseErr>)
    ensures
        final(buffer).spec_bits() == old(buffer).spec_bits(),
        (res, final(buffer).spec_pos()) == spec_parse_compression(old(buffer).spec_bits(), old(buffer).spec_pos()),
{
    let pcomp = match PCOMPNegotiation::from_bitbuf(buffer) {
        Ok(p) => p,
        Err(e) => return Err(e),
    };
    let num_vj_comp_state_slots = match read_optional(buffer, pcomp.vj_tcp_ip_header_compression, 8, "num_vj_comp_state_slots") {
        Ok(Some(v)) => Some(v as u8),
        Ok(None) => None,
        Err(e) => return Err(e),
    };
    let num_tcp_comp_state_slots = match read_optional(buffer, pcomp.ip_header_compression, 8, "num_tcp_comp_state_slots") {
        Ok(Some(v)) => Some(v as u8),
        Ok(None) => None,
        Err(e) => return Err(e),
    };
    let num_non_tcp_comp_state_slots = match read_optional(buffer, pcomp.ip_header_compression, 16, "num_non_tcp_comp_state_slots") {
        Ok(Some(v)) => Some(v as u16),
        Ok(None) => None,
        Err(e) => return Err(e),
    };
    let max_interval_between_full_headers = match read_optional(buffer, pcomp.other_header_compression, 8, "max_interval_between_full_headers") {
        Ok(Some(v)) => Some(v as u8),
        Ok(None) => None,
        Err(e) => return Err(e),
    };
    let largest_size_compressed = match read_optional(buffer, pcomp.ip_header_compression, 8, "largest_size_compressed") {
        Ok(Some(v)) => Some(v as u8),
        Ok(None) => None,
        Err(e) => return Err(e),
    };
    Ok((pcomp, num_vj_comp_state_slots, num_tcp_comp_state_slots, num_non_tcp_comp_state_slots,
        max_interval_between_full_headers, largest_size_compressed))
}

fn parse_optionals(buffer: &mut BitBuffer) -> (res: Result<Option<u16>, PduParseErr>)
    ensures
        final(buffer).spec_bits() == old(buffer).spec_bits(),
        (res, final(buffer).spec_pos()) == spec_parse_optionals(old(buffer).spec_bits(), old(buffer).spec_pos()),
{
    let obit = match buffer.read_field(1, "o_bit") {
        Ok(v) => v != 0,
        Err(e) => return Err(e),
    };
    // Further elements are conditional on the o-bit.
    match read_optional(buffer, obit, 16, "access_point_name_index") {
        Ok(Some(v)) => Ok(Some(v as u16)),
        Ok(None) => Ok(None),
        Err(e) => Err(e),
    }
}

} // verus!
