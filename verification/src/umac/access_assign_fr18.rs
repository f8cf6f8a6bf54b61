use vstd::prelude::*;
use crate::bits::{BitBuffer, splice_bits};
use crate::pdu_parse_error::PduParseErr;
use crate::umac::access_assign::{field_at, three_fields_bits, write_three_fields, lemma_three_fields_split, lemma_three_fields_join};
use crate::umac::access_code::AccessCode;
use crate::umac::access_field::AccessField;
use crate::umac::base_frame_length::BaseFrameLength;
use crate::umac::usage_marker::AccessAssignUlUsage;

verus! {

/// ACCESS-ASSIGN PDU as sent in frame 18 (clause 21.4.7.2): a 2-bit header
/// followed by two 6-bit fields.
#[derive(Debug, Clone, Copy, PartialEq, Eq)]
pub enum AccessAssignFr18 {
    /// Header 00. Uplink access rights: common only.
    UplinkCommonOnly { access_field_1: AccessField, access_field_2: AccessField },
    /// Header 01. Uplink access rights: common and assigned.
    UplinkCommonAndAssigned { access_field_1: AccessField, access_field_2: AccessField },
    /// Header 10. Uplink access rights: assigned only.
    UplinkAssignedOnly { access_field_1: AccessField, access_field_2: AccessField },
    /// Header 11. Uplink access rights: common and assigned, with a traffic
    /// usage marker (UMt) in place of access field 1.
    UplinkCommonAndAssignedTraffic { uplink_usage_marker: AccessAssignUlUsage, access_field: AccessField },
}

impl AccessAssignFr18 {
    /// The usage marker of header 11 is a traffic marker in 4..=63.
    pub open spec fn wf(self) -> bool {
        self matches AccessAssignFr18::UplinkCommonAndAssignedTraffic { uplink_usage_marker, .. }
            ==> uplink_usage_marker is Traffic && uplink_usage_marker.wf()
    }

    /// Header, field 1 and field 2 as the PDU is written.
    pub open spec fn spec_fields(self) -> (u64, u64, u64) {
        match self {
            AccessAssignFr18::UplinkCommonOnly { access_field_1, access_field_2 } =>
                (0, access_field_1.spec_raw(), access_field_2.spec_raw()),
            AccessAssignFr18::UplinkCommonAndAssigned { access_field_1, access_field_2 } =>
                (1, access_field_1.spec_raw(), access_field_2.spec_raw()),
            AccessAssignFr18::UplinkAssignedOnly { access_field_1, access_field_2 } =>
                (2, access_field_1.spec_raw(), access_field_2.spec_raw()),
            AccessAssignFr18::UplinkCommonAndAssignedTraffic { uplink_usage_marker, access_field } =>
                (3, uplink_usage_marker.spec_usage_marker() as u64, access_field.spec_raw()),
        }
    }

    /// The 14 bits of the PDU.
    pub open spec fn spec_encode(self) -> Seq<bool> {
        three_fields_bits(self.spec_fields().0, self.spec_fields().1, self.spec_fields().2)
    }

    /// The PDU that a header and two fields (each within its width) denote,
    /// or why they denote none.
    pub open spec fn spec_decode(header: u64, field1: u64, field2: u64) -> Result<AccessAssignFr18, PduParseErr> {
        if header == 0 {
            Ok(AccessAssignFr18::UplinkCommonOnly {
                access_field_1: AccessField::spec_from_raw(field1),
                access_field_2: AccessField::spec_from_raw(field2),
            })
        } else if header == 1 {
            Ok(AccessAssignFr18::UplinkCommonAndAssigned {
                access_field_1: AccessField::spec_from_raw(field1),
                access_field_2: AccessField::spec_from_raw(field2),
            })
        } else if header == 2 {
            Ok(AccessAssignFr18::UplinkAssignedOnly {
                access_field_1: AccessField::spec_from_raw(field1),
                access_field_2: AccessField::spec_from_raw(field2),
            })
        } else {
            match AccessAssignUlUsage::spec_from_usage_marker(field1 as u8) {
                Some(u) => if u is Traffic {
                    Ok(AccessAssignFr18::UplinkCommonAndAssignedTraffic {
                        uplink_usage_marker: u,
                        access_field: AccessField::spec_from_raw(field2),
                    })
                } else {
                    Err(PduParseErr::InvalidValue { field: "uplink_usage_marker", value: field1 })
                },
                None => Err(PduParseErr::InvalidValue { field: "uplink_usage_marker", value: field1 }),
            }
        }
    }

    /// The PDU that 14 bits denote, or why they denote none.
    pub open spec fn spec_decode_bits(s: Seq<bool>) -> Result<AccessAssignFr18, PduParseErr> {
        AccessAssignFr18::spec_decode(field_at(s, 0, 2), field_at(s, 2, 6), field_at(s, 8, 6))
    }

    /// Decodes the PDU from the buffer's position on. Fails with `BufferEnded`
    /// for the first field that does not fit, having moved past the fields
    /// before it; with `InvalidValue` for `uplink_usage_marker` where header 11
    /// carries a marker that is not a traffic marker.
    pub fn from_bitbuf(buf: &mut BitBuffer) -> (res: Result<AccessAssignFr18, PduParseErr>)
        ensures
            final(buf).spec_bits() == old(buf).spec_bits(),
            old(buf).has_bits(14) ==> res == AccessAssignFr18::spec_decode_bits(old(buf).upcoming(14))
                && final(buf).spec_pos() == old(buf).spec_pos() + 14,
            !old(buf).has_bits(2) ==> res == Err::<AccessAssignFr18, PduParseErr>(PduParseErr::BufferEnded { field: "_header" })
                && final(buf).spec_pos() == old(buf).spec_pos(),
            old(buf).has_bits(2) && !old(buf).has_bits(8) ==> res == Err::<AccessAssignFr18, PduParseErr>(PduParseErr::BufferEnded { field: "field1" })
                && final(buf).spec_pos() == old(buf).spec_pos() + 2,
            old(buf).has_bits(8) && !old(buf).has_bits(14) ==> res == Err::<AccessAssignFr18, PduParseErr>(PduParseErr::BufferEnded { field: "field2" })
                && final(buf).spec_pos() == old(buf).spec_pos() + 8,
    {
        let ghost s = old(buf).upcoming(14);
        let ghost start = old(buf).spec_pos() as int;
        let header = match buf.read_field(2, "_header") {
            Ok(v) => v,
            Err(e) => return Err(e),
        };
        let field1 = match buf.read_field(6, "field1") {
            Ok(v) => v,
            Err(e) => return Err(e),
        };
        let field2 = match buf.read_field(6, "field2") {
            Ok(v) => v,
            Err(e) => return Err(e),
        };
        proof {
            reveal(field_at);
            assert(s.subrange(0, 2) =~= buf.spec_bits().subrange(start, start + 2));
            assert(s.subrange(2, 8) =~= buf.spec_bits().subrange(start + 2, start + 8));
            assert(s.subrange(8, 14) =~= buf.spec_bits().subrange(start + 8, start + 14));
            lemma_three_fields_join(s);
        }
        if header == 0b00 {
            Ok(AccessAssignFr18::UplinkCommonOnly {
                access_field_1: access_field_of(field1),
                access_field_2: access_field_of(field2),
            })
        } else if header == 0b01 {
            Ok(AccessAssignFr18::UplinkCommonAndAssigned {
                access_field_1: access_field_of(field1),
                access_field_2: access_field_of(field2),
            })
        } else if header == 0b10 {
            Ok(AccessAssignFr18::UplinkAssignedOnly {
                access_field_1: access_field_of(field1),
                access_field_2: access_field_of(field2),
            })
        } else {
            let uplink_usage_marker = match AccessAssignUlUsage::from_usage_marker(field1 as u8) {
                Some(u) => u,
                None => return Err(PduParseErr::InvalidValue { field: "uplink_usage_marker", value: field1 }),
            };
            // Table 21.82 mandates UMt for header 11: UMx and other non-traffic markers are forbidden.
            if !uplink_usage_marker.is_traffic() {
                return Err(PduParseErr::InvalidValue { field: "uplink_usage_marker", value: field1 });
            }
            Ok(AccessAssignFr18::UplinkCommonAndAssignedTraffic {
                uplink_usage_marker,
                access_field: access_field_of(field2),
            })
        }
    }

    /// Writes the 14 bits of the PDU at the buffer's position and moves past them.
    /// A usage marker is written by its six low bits.
    pub fn to_bitbuf(&self, buf: &mut BitBuffer)
        requires
            old(buf).has_bits(14),
        ensures
            final(buf).spec_bits() == splice_bits(old(buf).spec_bits(), old(buf).spec_pos(), self.spec_encode()),
            final(buf).spec_pos() == old(buf).spec_pos() + 14,
    {
        let (header, field1, field2): (u64, u64, u64) = match self {
            AccessAssignFr18::UplinkCommonOnly { access_field_1, access_field_2 } =>
                (0b00, access_field_1.into_raw(), access_field_2.into_raw()),
            AccessAssignFr18::UplinkCommonAndAssigned { access_field_1, access_field_2 } =>
                (0b01, access_field_1.into_raw(), access_field_2.into_raw()),
            AccessAssignFr18::UplinkAssignedOnly { access_field_1, access_field_2 } =>
                (0b10, access_field_1.into_raw(), access_field_2.into_raw()),
            AccessAssignFr18::UplinkCommonAndAssignedTraffic { uplink_usage_marker, access_field } =>
                (0b11, uplink_usage_marker.to_usage_marker() as u64, access_field.into_raw()),
        };
        write_three_fields(buf, header, field1, field2);
    }
}

impl AccessAssignFr18 {
    /// The text that describes the PDU.
    pub open spec fn spec_text(self) -> Seq<char> {
        match self {
            AccessAssignFr18::UplinkCommonOnly { access_field_1, access_field_2 } =>
                "AccessAssignFr18 { UplinkCommonOnly: af1: "@ + access_field_1.spec_text()
                    + ", af2: "@ + access_field_2.spec_text() + " }"@,
            AccessAssignFr18::UplinkCommonAndAssigned { access_field_1, access_field_2 } =>
                "AccessAssignFr18 { UplinkCommonAndAssigned: af1: "@ + access_field_1.spec_text()
                    + ", af2: "@ + access_field_2.spec_text() + " }"@,
            AccessAssignFr18::UplinkAssignedOnly { access_field_1, access_field_2 } =>
                "AccessAssignFr18 { UplinkAssignedOnly: af1: "@ + access_field_1.spec_text()
                    + ", af2: "@ + access_field_2.spec_text() + " }"@,
            AccessAssignFr18::UplinkCommonAndAssignedTraffic { uplink_usage_marker, access_field } =>
                "AccessAssignFr18 { UplinkCommonAndAssignedTraffic: uum: "@ + uplink_usage_marker.spec_text()
                    + ", af: "@ + access_field.spec_text() + " }"@,
        }
    }

    /// The text that describes the PDU.
    pub fn to_string(&self) -> (res: String)
        ensures
            res@ == self.spec_text(),
    {
        match self {
            AccessAssignFr18::UplinkCommonOnly { access_field_1, access_field_2 } => {
                let mut s = String::from_str("AccessAssignFr18 { UplinkCommonOnly: af1: ");
                s.append(access_field_1.to_string().as_str());
                s.append(", af2: ");
                s.append(access_field_2.to_string().as_str());
                s.append(" }");
                s
            },
            AccessAssignFr18::UplinkCommonAndAssigned { access_field_1, access_field_2 } => {
                let mut s = String::from_str("AccessAssignFr18 { UplinkCommonAndAssigned: af1: ");
                s.append(access_field_1.to_string().as_str());
                s.append(", af2: ");
                s.append(access_field_2.to_string().as_str());
                s.append(" }");
                s
            },
            AccessAssignFr18::UplinkAssignedOnly { access_field_1, access_field_2 } => {
                let mut s = String::from_str("AccessAssignFr18 { UplinkAssignedOnly: af1: ");
                s.append(access_field_1.to_string().as_str());
                s.append(", af2: ");
                s.append(access_field_2.to_string().as_str());
                s.append(" }");
                s
            },
            AccessAssignFr18::UplinkCommonAndAssignedTraffic { uplink_usage_marker, access_field } => {
                let mut s = String::from_str("AccessAssignFr18 { UplinkCommonAndAssignedTraffic: uum: ");
                s.append(uplink_usage_marker.to_string().as_str());
                s.append(", af: ");
                s.append(access_field.to_string().as_str());
                s.append(" }");
                s
            },
        }
    }
}

/// The access field that a 6-bit value spells.
fn access_field_of(value: u64) -> (res: AccessField)
    ensures
        res == AccessField::spec_from_raw(value),
{
    match AccessField::try_from(value) {
        Ok(f) => f,
        Err(_) => AccessField { access_code: AccessCode::AccessCodeA, base_frame_len: BaseFrameLength::ReservedSubslot },
    }
}

impl Default for AccessAssignFr18 {
    fn default() -> (res: AccessAssignFr18)
        ensures
            res == (AccessAssignFr18::UplinkCommonOnly {
                access_field_1: AccessField { access_code: AccessCode::AccessCodeA, base_frame_len: BaseFrameLength::ReservedSubslot },
                access_field_2: AccessField { access_code: AccessCode::AccessCodeA, base_frame_len: BaseFrameLength::ReservedSubslot },
            }),
    {
        AccessAssignFr18::UplinkCommonOnly {
            access_field_1: AccessField { access_code: AccessCode::AccessCodeA, base_frame_len: BaseFrameLength::ReservedSubslot },
            access_field_2: AccessField { access_code: AccessCode::AccessCodeA, base_frame_len: BaseFrameLength::ReservedSubslot },
        }
    }
}

/// A well-formed frame-18 PDU is what its own fields decode to.
#[verifier::rlimit(40)]
#[verifier::spinoff_prover]
proof fn lemma_access_assign_fr18_fields_decode(p: AccessAssignFr18)
    requires
        p.wf(),
    ensures
        p.spec_fields().0 < 4,
        p.spec_fields().1 < 64,
        p.spec_fields().2 < 64,
        AccessAssignFr18::spec_decode(p.spec_fields().0, p.spec_fields().1, p.spec_fields().2)
            == Ok::<AccessAssignFr18, PduParseErr>(p),
{
    match p {
        AccessAssignFr18::UplinkCommonOnly { access_field_1, access_field_2 } => {
            crate::umac::access_field::lemma_access_field_roundtrip(access_field_1, 0);
            crate::umac::access_field::lemma_access_field_roundtrip(access_field_2, 0);
        },
        AccessAssignFr18::UplinkCommonAndAssigned { access_field_1, access_field_2 } => {
            crate::umac::access_field::lemma_access_field_roundtrip(access_field_1, 0);
            crate::umac::access_field::lemma_access_field_roundtrip(access_field_2, 0);
        },
        AccessAssignFr18::UplinkAssignedOnly { access_field_1, access_field_2 } => {
            crate::umac::access_field::lemma_access_field_roundtrip(access_field_1, 0);
            crate::umac::access_field::lemma_access_field_roundtrip(access_field_2, 0);
        },
        AccessAssignFr18::UplinkCommonAndAssignedTraffic { uplink_usage_marker, access_field } => {
            crate::umac::access_field::lemma_access_field_roundtrip(access_field, 0);
            let m = uplink_usage_marker.spec_usage_marker();
            crate::umac::access_assign::lemma_marker_cast(m);
            assert(AccessAssignUlUsage::spec_from_usage_marker(m) == Some(uplink_usage_marker));
        },
    }
}

/// Writing a well-formed frame-18 PDU and decoding the bits gives the PDU back.
#[verifier::spinoff_prover]
pub proof fn lemma_access_assign_fr18_encode_decode(p: AccessAssignFr18)
    requires
        p.wf(),
    ensures
        p.spec_encode().len() == 14,
        AccessAssignFr18::spec_decode_bits(p.spec_encode()) == Ok::<AccessAssignFr18, PduParseErr>(p),
{
    let h = p.spec_fields().0;
    let f1 = p.spec_fields().1;
    let f2 = p.spec_fields().2;
    lemma_access_assign_fr18_fields_decode(p);
    lemma_three_fields_split(h, f1, f2);
    let e = p.spec_encode();
    assert(e == three_fields_bits(h, f1, f2));
    assert(field_at(e, 0, 2) == h);
    assert(field_at(e, 2, 6) == f1);
    assert(field_at(e, 8, 6) == f2);
}

/// Where 14 bits decode to a frame-18 PDU, the PDU is well formed and writing
/// it gives the same 14 bits.
#[verifier::rlimit(80)]
pub proof fn lemma_access_assign_fr18_decode_encode(s: Seq<bool>)
    requires
        s.len() == 14,
        AccessAssignFr18::spec_decode_bits(s) is Ok,
    ensures
        AccessAssignFr18::spec_decode_bits(s).unwrap().wf(),
        AccessAssignFr18::spec_decode_bits(s).unwrap().spec_encode() == s,
{
    lemma_three_fields_join(s);
    let h = field_at(s, 0, 2);
    let f1 = field_at(s, 2, 6);
    let f2 = field_at(s, 8, 6);
    let p = AccessAssignFr18::spec_decode(h, f1, f2).unwrap();
    let m1 = f1 as u8;
    assert(m1 == f1) by (bit_vector)
        requires
            f1 < 64,
            m1 == f1 as u8,
    ;
    crate::umac::access_field::lemma_access_field_roundtrip(AccessField::spec_from_raw(f1), f1);
    crate::umac::access_field::lemma_access_field_roundtrip(AccessField::spec_from_raw(f2), f2);
    assert(p.spec_fields() == (h, f1, f2));
}

/// Where each element of the PDU lies in its 14 bits: the header in bits
/// 0..2; with headers 00, 01 and 10, access field 1 in bits 2..8 and access
/// field 2 in bits 8..14; with header 11, the uplink usage marker in bits 2..8
/// (a traffic marker, or the PDU is refused) and the access field in bits 8..14.
pub proof fn lemma_access_assign_fr18_field_positions(s: Seq<bool>)
    requires
        s.len() == 14,
    ensures
        field_at(s, 0, 2) == 0 ==> AccessAssignFr18::spec_decode_bits(s) == Ok::<AccessAssignFr18, PduParseErr>(AccessAssignFr18::UplinkCommonOnly {
            access_field_1: AccessField::spec_from_raw(field_at(s, 2, 6)),
            access_field_2: AccessField::spec_from_raw(field_at(s, 8, 6)),
        }),
        field_at(s, 0, 2) == 1 ==> AccessAssignFr18::spec_decode_bits(s) == Ok::<AccessAssignFr18, PduParseErr>(AccessAssignFr18::UplinkCommonAndAssigned {
            access_field_1: AccessField::spec_from_raw(field_at(s, 2, 6)),
            access_field_2: AccessField::spec_from_raw(field_at(s, 8, 6)),
        }),
        field_at(s, 0, 2) == 2 ==> AccessAssignFr18::spec_decode_bits(s) == Ok::<AccessAssignFr18, PduParseErr>(AccessAssignFr18::UplinkAssignedOnly {
            access_field_1: AccessField::spec_from_raw(field_at(s, 2, 6)),
            access_field_2: AccessField::spec_from_raw(field_at(s, 8, 6)),
        }),
        field_at(s, 0, 2) == 3 ==> (AccessAssignFr18::spec_decode_bits(s) is Ok
            <==> (AccessAssignUlUsage::spec_from_usage_marker(field_at(s, 2, 6) as u8) matches Some(u) && u is Traffic)),
        field_at(s, 0, 2) == 3 && AccessAssignFr18::spec_decode_bits(s) is Ok ==> AccessAssignFr18::spec_decode_bits(s) == Ok::<AccessAssignFr18, PduParseErr>(AccessAssignFr18::UplinkCommonAndAssignedTraffic {
            uplink_usage_marker: AccessAssignUlUsage::spec_from_usage_marker(field_at(s, 2, 6) as u8).unwrap(),
            access_field: AccessField::spec_from_raw(field_at(s, 8, 6)),
        }),
        field_at(s, 0, 2) < 3 ==> (AccessAssignFr18::spec_decode_bits(s) matches Ok(p) && p.spec_fields().1 == field_at(s, 2, 6)
            && p.spec_fields().2 == field_at(s, 8, 6)),
{
    lemma_three_fields_join(s);
    crate::umac::access_field::lemma_access_field_roundtrip(AccessField::spec_from_raw(field_at(s, 2, 6)), field_at(s, 2, 6));
    crate::umac::access_field::lemma_access_field_roundtrip(AccessField::spec_from_raw(field_at(s, 8, 6)), field_at(s, 8, 6));
}

} // verus!
