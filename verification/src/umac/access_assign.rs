use vstd::prelude::*;
use crate::bits::{BitBuffer, bits_to_nat, nat_to_bits, splice_bits, lemma_nat_to_bits_value, lemma_bits_to_nat_bound, lemma_bits_to_nat_injective};
use crate::pdu_parse_error::PduParseErr;
use crate::umac::access_code::AccessCode;
use crate::umac::access_field::AccessField;
use crate::umac::base_frame_length::BaseFrameLength;
use crate::umac::usage_marker::{AccessAssignDlUsage, AccessAssignUlUsage};

verus! {

/// ACCESS-ASSIGN PDU (clause 21.4.7.2): a 2-bit header followed by two 6-bit fields.
#[derive(Debug, Clone, Copy, PartialEq, Eq)]
pub enum AccessAssign {
    /// Header 00. Downlink usage: common control. Uplink access rights: common only.
    DownlinkCommonControlUplinkCommonOnly { access_field_1: AccessField, access_field_2: AccessField },
    /// Header 01. Downlink usage: defined by field 1. Uplink access rights: common and assigned.
    DownlinkDefinedUplinkCommonAndAssigned { downlink_usage_marker: AccessAssignDlUsage, access_field: AccessField },
    /// Header 10. Downlink usage: defined by field 1. Uplink access rights: assigned only.
    DownlinkDefinedUplinkAssignedOnly { downlink_usage_marker: AccessAssignDlUsage, access_field: AccessField },
    /// Header 11. Downlink usage: defined by field 1. Uplink access rights: defined by field 2.
    DownlinkDefinedUplinkDefined { downlink_usage_marker: AccessAssignDlUsage, uplink_usage_marker: AccessAssignUlUsage },
}

/// The `width`-bit field of `s` that starts at `start`, as a number.
#[verifier::opaque]
pub open spec fn field_at(s: Seq<bool>, start: int, width: int) -> u64 {
    bits_to_nat(s.subrange(start, start + width)) as u64
}

/// The bits of a 2-bit header and two 6-bit fields.
#[verifier::opaque]
pub open spec fn three_fields_bits(header: u64, field1: u64, field2: u64) -> Seq<bool> {
    nat_to_bits(header as nat, 2) + nat_to_bits(field1 as nat, 6) + nat_to_bits(field2 as nat, 6)
}

/// Splitting the bits of three fields gives back each field, reduced to its width.
pub proof fn lemma_three_fields_split(header: u64, field1: u64, field2: u64)
    ensures
        three_fields_bits(header, field1, field2).len() == 14,
        field_at(three_fields_bits(header, field1, field2), 0, 2) == header % 4,
        field_at(three_fields_bits(header, field1, field2), 2, 6) == field1 % 64,
        field_at(three_fields_bits(header, field1, field2), 8, 6) == field2 % 64,
{
    reveal(three_fields_bits);
    reveal(field_at);
    let s = three_fields_bits(header, field1, field2);
    lemma_nat_to_bits_value(header as nat, 2);
    lemma_nat_to_bits_value(field1 as nat, 6);
    lemma_nat_to_bits_value(field2 as nat, 6);
    vstd::arithmetic::power2::lemma2_to64();
    assert(s.subrange(0, 2) =~= nat_to_bits(header as nat, 2));
    assert(s.subrange(2, 8) =~= nat_to_bits(field1 as nat, 6));
    assert(s.subrange(8, 14) =~= nat_to_bits(field2 as nat, 6));
}

/// Fourteen bits are the bits of their own three fields.
pub proof fn lemma_three_fields_join(s: Seq<bool>)
    requires
        s.len() == 14,
    ensures
        three_fields_bits(field_at(s, 0, 2), field_at(s, 2, 6), field_at(s, 8, 6)) == s,
        field_at(s, 0, 2) < 4,
        field_at(s, 2, 6) < 64,
        field_at(s, 8, 6) < 64,
{
    reveal(three_fields_bits);
    reveal(field_at);
    vstd::arithmetic::power2::lemma2_to64();
    lemma_bits_to_nat_bound(s.subrange(0, 2));
    lemma_bits_to_nat_bound(s.subrange(2, 8));
    lemma_bits_to_nat_bound(s.subrange(8, 14));
    lemma_bits_to_nat_injective(s.subrange(0, 2));
    lemma_bits_to_nat_injective(s.subrange(2, 8));
    lemma_bits_to_nat_injective(s.subrange(8, 14));
    assert(three_fields_bits(field_at(s, 0, 2), field_at(s, 2, 6), field_at(s, 8, 6)) =~= s);
}

impl AccessAssign {
    /// The usage markers it carries are in range.
    pub open spec fn wf(self) -> bool {
        match self {
            AccessAssign::DownlinkCommonControlUplinkCommonOnly { .. } => true,
            AccessAssign::DownlinkDefinedUplinkCommonAndAssigned { downlink_usage_marker, .. } => downlink_usage_marker.wf(),
            AccessAssign::DownlinkDefinedUplinkAssignedOnly { downlink_usage_marker, .. } => downlink_usage_marker.wf(),
            AccessAssign::DownlinkDefinedUplinkDefined { downlink_usage_marker, uplink_usage_marker } =>
                downlink_usage_marker.wf() && uplink_usage_marker.wf(),
        }
    }

    /// Header, field 1 and field 2 as the PDU is written.
    pub open spec fn spec_fields(self) -> (u64, u64, u64) {
        match self {
            AccessAssign::DownlinkCommonControlUplinkCommonOnly { access_field_1, access_field_2 } =>
                (0, access_field_1.spec_raw(), access_field_2.spec_raw()),
            AccessAssign::DownlinkDefinedUplinkCommonAndAssigned { downlink_usage_marker, access_field } =>
                (1, downlink_usage_marker.spec_usage_marker() as u64, access_field.spec_raw()),
            AccessAssign::DownlinkDefinedUplinkAssignedOnly { downlink_usage_marker, access_field } =>
                (2, downlink_usage_marker.spec_usage_marker() as u64, access_field.spec_raw()),
            AccessAssign::DownlinkDefinedUplinkDefined { downlink_usage_marker, uplink_usage_marker } =>
                (3, downlink_usage_marker.spec_usage_marker() as u64, uplink_usage_marker.spec_usage_marker() as u64),
        }
    }

    /// The 14 bits of the PDU.
    pub open spec fn spec_encode(self) -> Seq<bool> {
        three_fields_bits(self.spec_fields().0, self.spec_fields().1, self.spec_fields().2)
    }

    /// The PDU that a header and two fields (each within its width) denote.
    #[verifier::opaque]
    pub open spec fn spec_decode(header: u64, field1: u64, field2: u64) -> AccessAssign {
        if header == 0 {
            AccessAssign::DownlinkCommonControlUplinkCommonOnly {
                access_field_1: AccessField::spec_from_raw(field1),
                access_field_2: AccessField::spec_from_raw(field2),
            }
        } else if header == 1 {
            AccessAssign::DownlinkDefinedUplinkCommonAndAssigned {
                downlink_usage_marker: AccessAssignDlUsage::spec_from_usage_marker(field1 as u8),
                access_field: AccessField::spec_from_raw(field2),
            }
        } else if header == 2 {
            AccessAssign::DownlinkDefinedUplinkAssignedOnly {
                downlink_usage_marker: AccessAssignDlUsage::spec_from_usage_marker(field1 as u8),
                access_field: AccessField::spec_from_raw(field2),
            }
        } else {
            AccessAssign::DownlinkDefinedUplinkDefined {
                downlink_usage_marker: AccessAssignDlUsage::spec_from_usage_marker(field1 as u8),
                uplink_usage_marker: AccessAssignUlUsage::spec_from_usage_marker(field2 as u8).unwrap(),
            }
        }
    }

    /// The PDU that 14 bits denote.
    pub open spec fn spec_decode_bits(s: Seq<bool>) -> AccessAssign {
        AccessAssign::spec_decode(field_at(s, 0, 2), field_at(s, 2, 6), field_at(s, 8, 6))
    }

    /// The downlink carries traffic.
    pub fn dl_is_traffic(&self) -> (res: bool)
        ensures
            res == match *self {
                AccessAssign::DownlinkCommonControlUplinkCommonOnly { .. } => false,
                AccessAssign::DownlinkDefinedUplinkCommonAndAssigned { downlink_usage_marker, .. } => downlink_usage_marker is Traffic,
                AccessAssign::DownlinkDefinedUplinkAssignedOnly { downlink_usage_marker, .. } => downlink_usage_marker is Traffic,
                AccessAssign::DownlinkDefinedUplinkDefined { downlink_usage_marker, .. } => downlink_usage_marker is Traffic,
            },
    {
        match self {
            AccessAssign::DownlinkDefinedUplinkCommonAndAssigned { downlink_usage_marker, .. } => downlink_usage_marker.is_traffic(),
            AccessAssign::DownlinkDefinedUplinkAssignedOnly { downlink_usage_marker, .. } => downlink_usage_marker.is_traffic(),
            AccessAssign::DownlinkDefinedUplinkDefined { downlink_usage_marker, .. } => downlink_usage_marker.is_traffic(),
            _ => false,
        }
    }

    /// Decodes the PDU from the buffer's position on. Fails with `BufferEnded`
    /// for the first field that does not fit, having moved past the fields
    /// before it.
    pub fn from_bitbuf(buf: &mut BitBuffer) -> (res: Result<AccessAssign, PduParseErr>)
        ensures
            final(buf).spec_bits() == old(buf).spec_bits(),
            old(buf).has_bits(14) ==> res == Ok::<AccessAssign, PduParseErr>(AccessAssign::spec_decode_bits(old(buf).upcoming(14)))
                && final(buf).spec_pos() == old(buf).spec_pos() + 14,
            !old(buf).has_bits(2) ==> res == Err::<AccessAssign, PduParseErr>(PduParseErr::BufferEnded { field: "_header" })
                && final(buf).spec_pos() == old(buf).spec_pos(),
            old(buf).has_bits(2) && !old(buf).has_bits(8) ==> res == Err::<AccessAssign, PduParseErr>(PduParseErr::BufferEnded { field: "field1" })
                && final(buf).spec_pos() == old(buf).spec_pos() + 2,
            old(buf).has_bits(8) && !old(buf).has_bits(14) ==> res == Err::<AccessAssign, PduParseErr>(PduParseErr::BufferEnded { field: "field2" })
                && final(buf).spec_pos() == old(buf).spec_pos() + 8,
    {
        let ghost s = old(buf).upcoming(14);
        let ghost start = old(buf).spec_pos() as int;
        let header = match buf.read_field(2, "_header") {
            Ok(v) => v,
            Err(e) => return Err(e),
        };
        let field1 = match buf.read_field(6, "field1") {
            Ok(v) => v,
            Err(e) => return Err(e),
        };
        let field2 = match buf.read_field(6, "field2") {
            Ok(v) => v,
            Err(e) => return Err(e),
        };
        proof {
            reveal(field_at);
            reveal(AccessAssign::spec_decode);
            assert(s.subrange(0, 2) =~= buf.spec_bits().subrange(start, start + 2));
            assert(s.subrange(2, 8) =~= buf.spec_bits().subrange(start + 2, start + 8));
            assert(s.subrange(8, 14) =~= buf.spec_bits().subrange(start + 8, start + 14));
            lemma_three_fields_join(s);
        }
        let field1_u8 = field1 as u8;
        let field2_u8 = field2 as u8;
        if header == 0 {
            Ok(AccessAssign::DownlinkCommonControlUplinkCommonOnly {
                access_field_1: Self::access_field_of(field1),
                access_field_2: Self::access_field_of(field2),
            })
        } else if header == 1 {
            Ok(AccessAssign::DownlinkDefinedUplinkCommonAndAssigned {
                downlink_usage_marker: AccessAssignDlUsage::from_usage_marker(field1_u8),
                access_field: Self::access_field_of(field2),
            })
        } else if header == 2 {
            Ok(AccessAssign::DownlinkDefinedUplinkAssignedOnly {
                downlink_usage_marker: AccessAssignDlUsage::from_usage_marker(field1_u8),
                access_field: Self::access_field_of(field2),
            })
        } else {
            // A 6-bit field always holds an uplink usage marker.
            let uplink = AccessAssignUlUsage::from_usage_marker(field2_u8);
            Ok(AccessAssign::DownlinkDefinedUplinkDefined {
                downlink_usage_marker: AccessAssignDlUsage::from_usage_marker(field1_u8),
                uplink_usage_marker: uplink.unwrap(),
            })
        }
    }

    /// The access field that a 6-bit value spells.
    fn access_field_of(value: u64) -> (res: AccessField)
        ensures
            res == AccessField::spec_from_raw(value),
    {
        match AccessField::try_from(value) {
            Ok(f) => f,
            Err(_) => AccessField { access_code: AccessCode::AccessCodeA, base_frame_len: BaseFrameLength::ReservedSubslot },
        }
    }

    /// Writes the 14 bits of the PDU at the buffer's position and moves past them.
    /// A usage marker is written by its six low bits.
    pub fn to_bitbuf(&self, buf: &mut BitBuffer)
        requires
            old(buf).has_bits(14),
        ensures
            final(buf).spec_bits() == splice_bits(old(buf).spec_bits(), old(buf).spec_pos(), self.spec_encode()),
            final(buf).spec_pos() == old(buf).spec_pos() + 14,
    {
        let (header, field1, field2): (u64, u64, u64) = match self {
            AccessAssign::DownlinkCommonControlUplinkCommonOnly { access_field_1, access_field_2 } =>
                (0b00, access_field_1.into_raw(), access_field_2.into_raw()),
            AccessAssign::DownlinkDefinedUplinkCommonAndAssigned { downlink_usage_marker, access_field } =>
                (0b01, downlink_usage_marker.to_usage_marker() as u64, access_field.into_raw()),
            AccessAssign::DownlinkDefinedUplinkAssignedOnly { downlink_usage_marker, access_field } =>
                (0b10, downlink_usage_marker.to_usage_marker() as u64, access_field.into_raw()),
            AccessAssign::DownlinkDefinedUplinkDefined { downlink_usage_marker, uplink_usage_marker } =>
                (0b11, downlink_usage_marker.to_usage_marker() as u64, uplink_usage_marker.to_usage_marker() as u64),
        };
        write_three_fields(buf, header, field1, field2);
    }
}

impl AccessAssign {
    /// The text that describes the PDU.
    pub open spec fn spec_text(self) -> Seq<char> {
        match self {
            AccessAssign::DownlinkCommonControlUplinkCommonOnly { access_field_1, access_field_2 } =>
                "AccessAssign { DL: Common Ctrl, UL: Common Only, af1: "@ + access_field_1.spec_text()
                    + ", af2: "@ + access_field_2.spec_text() + " }"@,
            AccessAssign::DownlinkDefinedUplinkCommonAndAssigned { downlink_usage_marker, access_field } =>
                "AccessAssign { DL: "@ + downlink_usage_marker.spec_text() + ", UL: Common & Assigned, af: "@
                    + access_field.spec_text() + " }"@,
            AccessAssign::DownlinkDefinedUplinkAssignedOnly { downlink_usage_marker, access_field } =>
                "AccessAssign { DL: "@ + downlink_usage_marker.spec_text() + ", UL: Assigned Only, af: "@
                    + access_field.spec_text() + " }"@,
            AccessAssign::DownlinkDefinedUplinkDefined { downlink_usage_marker, uplink_usage_marker } =>
                "AccessAssign { DL: "@ + downlink_usage_marker.spec_text() + ", UL: "@
                    + uplink_usage_marker.spec_text() + " }"@,
        }
    }

    /// The text that describes the PDU.
    pub fn to_string(&self) -> (res: String)
        ensures
            res@ == self.spec_text(),
    {
        match self {
            AccessAssign::DownlinkCommonControlUplinkCommonOnly { access_field_1, access_field_2 } => {
                let mut s = String::from_str("AccessAssign { DL: Common Ctrl, UL: Common Only, af1: ");
                s.append(access_field_1.to_string().as_str());
                s.append(", af2: ");
                s.append(access_field_2.to_string().as_str());
                s.append(" }");
                s
            },
            AccessAssign::DownlinkDefinedUplinkCommonAndAssigned { downlink_usage_marker, access_field } => {
                let mut s = String::from_str("AccessAssign { DL: ");
                s.append(downlink_usage_marker.to_string().as_str());
                s.append(", UL: Common & Assigned, af: ");
                s.append(access_field.to_string().as_str());
                s.append(" }");
                s
            },
            AccessAssign::DownlinkDefinedUplinkAssignedOnly { downlink_usage_marker, access_field } => {
                let mut s = String::from_str("AccessAssign { DL: ");
                s.append(downlink_usage_marker.to_string().as_str());
                s.append(", UL: Assigned Only, af: ");
                s.append(access_field.to_string().as_str());
                s.append(" }");
                s
            },
            AccessAssign::DownlinkDefinedUplinkDefined { downlink_usage_marker, uplink_usage_marker } => {
                let mut s = String::from_str("AccessAssign { DL: ");
                s.append(downlink_usage_marker.to_string().as_str());
                s.append(", UL: ");
                s.append(uplink_usage_marker.to_string().as_str());
                s.append(" }");
                s
            },
        }
    }
}

/// Writes a 2-bit header and two 6-bit fields at the buffer's position and moves past them.
pub fn write_three_fields(buf: &mut BitBuffer, header: u64, field1: u64, field2: u64)
    requires
        old(buf).has_bits(14),
    ensures
        final(buf).spec_bits() == splice_bits(old(buf).spec_bits(), old(buf).spec_pos(), three_fields_bits(header, field1, field2)),
        final(buf).spec_pos() == old(buf).spec_pos() + 14,
{
    let ghost b0 = buf.spec_bits();
    let ghost p0 = buf.spec_pos();
    buf.write_bits(header, 2);
    buf.write_bits(field1, 6);
    buf.write_bits(field2, 6);
    proof {
        reveal(three_fields_bits);
        assert(buf.spec_bits() =~= splice_bits(b0, p0, three_fields_bits(header, field1, field2)));
    }
}

impl Default for AccessAssign {
    fn default() -> (res: AccessAssign)
        ensures
            res == (AccessAssign::DownlinkCommonControlUplinkCommonOnly {
                access_field_1: AccessField { access_code: AccessCode::AccessCodeA, base_frame_len: BaseFrameLength::Subslots4 },
                access_field_2: AccessField { access_code: AccessCode::AccessCodeA, base_frame_len: BaseFrameLength::Subslots4 },
            }),
    {
        AccessAssign::DownlinkCommonControlUplinkCommonOnly {
            access_field_1: AccessField { access_code: AccessCode::AccessCodeA, base_frame_len: BaseFrameLength::Subslots4 },
            access_field_2: AccessField { access_code: AccessCode::AccessCodeA, base_frame_len: BaseFrameLength::Subslots4 },
        }
    }
}

/// A well-formed PDU is what its own fields decode to.
#[verifier::rlimit(40)]
#[verifier::spinoff_prover]
proof fn lemma_access_assign_fields_decode(p: AccessAssign)
    requires
        p.wf(),
    ensures
        p.spec_fields().0 < 4,
        p.spec_fields().1 < 64,
        p.spec_fields().2 < 64,
        AccessAssign::spec_decode(p.spec_fields().0, p.spec_fields().1, p.spec_fields().2) == p,
{
    reveal(AccessAssign::spec_decode);
    match p {
        AccessAssign::DownlinkCommonControlUplinkCommonOnly { access_field_1, access_field_2 } => {
            crate::umac::access_field::lemma_access_field_roundtrip(access_field_1, 0);
            crate::umac::access_field::lemma_access_field_roundtrip(access_field_2, 0);
        },
        AccessAssign::DownlinkDefinedUplinkCommonAndAssigned { downlink_usage_marker, access_field } => {
            crate::umac::access_field::lemma_access_field_roundtrip(access_field, 0);
            lemma_marker_cast(downlink_usage_marker.spec_usage_marker());
            crate::umac::usage_marker::lemma_usage_marker_roundtrip(downlink_usage_marker, AccessAssignUlUsage::Unallocated, 0);
        },
        AccessAssign::DownlinkDefinedUplinkAssignedOnly { downlink_usage_marker, access_field } => {
            crate::umac::access_field::lemma_access_field_roundtrip(access_field, 0);
            lemma_marker_cast(downlink_usage_marker.spec_usage_marker());
            crate::umac::usage_marker::lemma_usage_marker_roundtrip(downlink_usage_marker, AccessAssignUlUsage::Unallocated, 0);
        },
        AccessAssign::DownlinkDefinedUplinkDefined { downlink_usage_marker, uplink_usage_marker } => {
            lemma_marker_cast(downlink_usage_marker.spec_usage_marker());
            lemma_marker_cast(uplink_usage_marker.spec_usage_marker());
            crate::umac::usage_marker::lemma_usage_marker_roundtrip(downlink_usage_marker, uplink_usage_marker, 0);
        },
    }
}

/// A marker below 64 survives the trip through a 6-bit field.
pub proof fn lemma_marker_cast(m: u8)
    ensures
        m < 64 ==> (m as u64) % 64 == m as u64 && (m as u64) as u8 == m,
{
    let w = m as u64;
    assert(m < 64 ==> w % 64 == w && w as u8 == m) by (bit_vector)
        requires
            w == m as u64,
    ;
}

/// Writing a well-formed PDU and decoding the bits gives the PDU back.
#[verifier::spinoff_prover]
pub proof fn lemma_access_assign_encode_decode(p: AccessAssign)
    requires
        p.wf(),
    ensures
        p.spec_encode().len() == 14,
        AccessAssign::spec_decode_bits(p.spec_encode()) == p,
{
    let h = p.spec_fields().0;
    let f1 = p.spec_fields().1;
    let f2 = p.spec_fields().2;
    lemma_access_assign_fields_decode(p);
    lemma_three_fields_split(h, f1, f2);
    let e = p.spec_encode();
    assert(e == three_fields_bits(h, f1, f2));
    assert(field_at(e, 0, 2) == h);
    assert(field_at(e, 2, 6) == f1);
    assert(field_at(e, 8, 6) == f2);
    assert(AccessAssign::spec_decode_bits(e) == AccessAssign::spec_decode(h, f1, f2));
}

/// A decoded PDU is well formed and is written with the fields it was decoded from.
#[verifier::rlimit(80)]
proof fn lemma_access_assign_decode_fields(h: u64, f1: u64, f2: u64)
    requires
        h < 4,
        f1 < 64,
        f2 < 64,
    ensures
        AccessAssign::spec_decode(h, f1, f2).wf(),
        AccessAssign::spec_decode(h, f1, f2).spec_fields() == (h, f1, f2),
{
    reveal(AccessAssign::spec_decode);
    let m1 = f1 as u8;
    let m2 = f2 as u8;
    assert(m1 == f1 && m2 == f2) by (bit_vector)
        requires
            f1 < 64,
            f2 < 64,
            m1 == f1 as u8,
            m2 == f2 as u8,
    ;
    let p = AccessAssign::spec_decode(h, f1, f2);
    if h == 0 {
        let af1 = AccessField::spec_from_raw(f1);
        let af2 = AccessField::spec_from_raw(f2);
        crate::umac::access_field::lemma_access_field_roundtrip(af1, f1);
        crate::umac::access_field::lemma_access_field_roundtrip(af2, f2);
        assert(p.spec_fields() == (0u64, af1.spec_raw(), af2.spec_raw()));
    } else if h == 3 {
        let dl = AccessAssignDlUsage::spec_from_usage_marker(m1);
        crate::umac::usage_marker::lemma_usage_marker_roundtrip(dl, AccessAssignUlUsage::Unallocated, m1);
        let ul = AccessAssignUlUsage::spec_from_usage_marker(m2).unwrap();
        crate::umac::usage_marker::lemma_usage_marker_roundtrip(dl, ul, m2);
        assert(p.spec_fields() == (3u64, dl.spec_usage_marker() as u64, ul.spec_usage_marker() as u64));
    } else {
        let af2 = AccessField::spec_from_raw(f2);
        crate::umac::access_field::lemma_access_field_roundtrip(af2, f2);
        let dl = AccessAssignDlUsage::spec_from_usage_marker(m1);
        crate::umac::usage_marker::lemma_usage_marker_roundtrip(dl, AccessAssignUlUsage::Unallocated, m1);
        assert(p.spec_fields() == (h, dl.spec_usage_marker() as u64, af2.spec_raw()));
    }
}

/// Decoding 14 bits and writing the PDU gives the same 14 bits, and the PDU is well formed.
pub proof fn lemma_access_assign_decode_encode(s: Seq<bool>)
    requires
        s.len() == 14,
    ensures
        AccessAssign::spec_decode_bits(s).wf(),
        AccessAssign::spec_decode_bits(s).spec_encode() == s,
{
    lemma_three_fields_join(s);
    lemma_access_assign_decode_fields(field_at(s, 0, 2), field_at(s, 2, 6), field_at(s, 8, 6));
}

/// Where each element of the PDU lies in its 14 bits: the header in bits
/// 0..2; with header 00, access field 1 in bits 2..8 and access field 2 in
/// bits 8..14; with headers 01 and 10, the downlink usage marker in bits 2..8
/// and the access field in bits 8..14; with header 11, the downlink usage
/// marker in bits 2..8 and the uplink usage marker in bits 8..14.
pub proof fn lemma_access_assign_field_positions(s: Seq<bool>)
    requires
        s.len() == 14,
    ensures
        field_at(s, 0, 2) == 0 ==> AccessAssign::spec_decode_bits(s) == (AccessAssign::DownlinkCommonControlUplinkCommonOnly {
            access_field_1: AccessField::spec_from_raw(field_at(s, 2, 6)),
            access_field_2: AccessField::spec_from_raw(field_at(s, 8, 6)),
        }),
        field_at(s, 0, 2) == 1 ==> AccessAssign::spec_decode_bits(s) == (AccessAssign::DownlinkDefinedUplinkCommonAndAssigned {
            downlink_usage_marker: AccessAssignDlUsage::spec_from_usage_marker(field_at(s, 2, 6) as u8),
            access_field: AccessField::spec_from_raw(field_at(s, 8, 6)),
        }),
        field_at(s, 0, 2) == 2 ==> AccessAssign::spec_decode_bits(s) == (AccessAssign::DownlinkDefinedUplinkAssignedOnly {
            downlink_usage_marker: AccessAssignDlUsage::spec_from_usage_marker(field_at(s, 2, 6) as u8),
            access_field: AccessField::spec_from_raw(field_at(s, 8, 6)),
        }),
        field_at(s, 0, 2) == 3 ==> AccessAssign::spec_decode_bits(s) == (AccessAssign::DownlinkDefinedUplinkDefined {
            downlink_usage_marker: AccessAssignDlUsage::spec_from_usage_marker(field_at(s, 2, 6) as u8),
            uplink_usage_marker: AccessAssignUlUsage::spec_from_usage_marker(field_at(s, 8, 6) as u8).unwrap(),
        }),
        AccessAssign::spec_decode_bits(s) matches AccessAssign::DownlinkCommonControlUplinkCommonOnly { access_field_1, access_field_2 }
            ==> access_field_1.spec_raw() == field_at(s, 2, 6) && access_field_2.spec_raw() == field_at(s, 8, 6),
{
    reveal(AccessAssign::spec_decode);
    lemma_three_fields_join(s);
    lemma_access_assign_decode_fields(field_at(s, 0, 2), field_at(s, 2, 6), field_at(s, 8, 6));
}

} // verus!
