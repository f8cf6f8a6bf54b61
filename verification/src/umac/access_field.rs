use vstd::prelude::*;
use crate::umac::access_code::AccessCode;
use crate::umac::base_frame_length::BaseFrameLength;

verus! {

/// An access field of an ACCESS-ASSIGN PDU: access code and base frame length.
#[derive(Debug, Clone, Copy, PartialEq, Eq)]
pub struct AccessField {
    pub access_code: AccessCode,
    pub base_frame_len: BaseFrameLength,
}

impl AccessField {
    /// The 6-bit code: access code in the two high bits, base frame length in the four low bits.
    pub open spec fn spec_raw(self) -> u64 {
        (self.access_code.spec_raw() * 16 + self.base_frame_len.spec_raw()) as u64
    }

    /// The access field that the six low bits of a value spell; every value spells one.
    pub open spec fn spec_from_raw(value: u64) -> AccessField {
        AccessField {
            access_code: AccessCode::spec_from_raw((value / 16) % 4).unwrap(),
            base_frame_len: BaseFrameLength::spec_from_raw(value % 16).unwrap(),
        }
    }

    pub fn into_raw(self) -> (res: u64)
        ensures
            res == self.spec_raw(),
            res < 64,
    {
        let c = self.access_code.into_raw();
        let b = self.base_frame_len.into_raw();
        assert((c << 4u64) | b == c * 16 + b) by (bit_vector)
            requires
                c < 4,
                b < 16,
        ;
        (c << 4) | b
    }
}

impl AccessField {
    /// The text that describes the access field.
    pub open spec fn spec_text(self) -> Seq<char> {
        "Access Code: "@ + self.access_code.spec_text() + ", Base Frame Length: "@ + self.base_frame_len.spec_text()
    }

    /// The text that describes the access field.
    pub fn to_string(&self) -> (res: String)
        ensures
            res@ == self.spec_text(),
    {
        let mut s = String::from_str("Access Code: ");
        s.append(self.access_code.to_string().as_str());
        s.append(", Base Frame Length: ");
        s.append(self.base_frame_len.to_string().as_str());
        s
    }
}

impl TryFrom<u64> for AccessField {
    type Error = ();

    fn try_from(value: u64) -> (res: Result<AccessField, ()>) {
        let code_bits = (value >> 4) & 0b11;
        let len_bits = value & 0b1111;
        assert(code_bits == (value / 16) % 4 && len_bits == value % 16) by (bit_vector)
            requires
                code_bits == (value >> 4) & 0b11,
                len_bits == value & 0b1111,
        ;
        let access_code = match AccessCode::try_from(code_bits) {
            Ok(c) => c,
            Err(e) => return Err(e),
        };
        let base_frame_len = match BaseFrameLength::try_from(len_bits) {
            Ok(l) => l,
            Err(e) => return Err(e),
        };
        Ok(AccessField { access_code, base_frame_len })
    }
}

impl vstd::std_specs::convert::TryFromSpecImpl<u64> for AccessField {
    open spec fn obeys_try_from_spec() -> bool {
        true
    }

    open spec fn try_from_spec(value: u64) -> Result<AccessField, ()> {
        Ok(AccessField::spec_from_raw(value))
    }
}

/// Decoding the code of an access field gives it back; decoding a value and
/// encoding the result gives the six low bits of the value.
pub proof fn lemma_access_field_roundtrip(f: AccessField, value: u64)
    ensures
        f.spec_raw() < 64,
        AccessField::spec_from_raw(f.spec_raw()) == f,
        AccessField::spec_from_raw(value).spec_raw() == value % 64,
{
}

} // verus!
