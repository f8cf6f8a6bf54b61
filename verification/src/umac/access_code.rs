use vstd::prelude::*;

verus! {

/// Access code of an access field (clause 21.5.1).
#[derive(Debug, Clone, Copy, PartialEq, Eq)]
pub enum AccessCode {
    AccessCodeA,
    AccessCodeB,
    AccessCodeC,
    AccessCodeD,
}

impl AccessCode {
    /// The 2-bit code of each access code.
    pub open spec fn spec_raw(self) -> u64 {
        match self {
            AccessCode::AccessCodeA => 0,
            AccessCode::AccessCodeB => 1,
            AccessCode::AccessCodeC => 2,
            AccessCode::AccessCodeD => 3,
        }
    }

    /// The access code that a raw value names, if any.
    pub open spec fn spec_from_raw(value: u64) -> Result<AccessCode, ()> {
        if value == 0 {
            Ok(AccessCode::AccessCodeA)
        } else if value == 1 {
            Ok(AccessCode::AccessCodeB)
        } else if value == 2 {
            Ok(AccessCode::AccessCodeC)
        } else if value == 3 {
            Ok(AccessCode::AccessCodeD)
        } else {
            Err(())
        }
    }

    pub fn into_raw(self) -> (res: u64)
        ensures
            res == self.spec_raw(),
    {
        match self {
            AccessCode::AccessCodeA => 0b00,
            AccessCode::AccessCodeB => 0b01,
            AccessCode::AccessCodeC => 0b10,
            AccessCode::AccessCodeD => 0b11,
        }
    }
}

impl AccessCode {
    /// The text that names the access code.
    pub open spec fn spec_text(self) -> Seq<char> {
        match self {
            AccessCode::AccessCodeA => "Access Code A"@,
            AccessCode::AccessCodeB => "Access Code B"@,
            AccessCode::AccessCodeC => "Access Code C"@,
            AccessCode::AccessCodeD => "Access Code D"@,
        }
    }

    /// The text that names the access code.
    pub fn to_string(&self) -> (res: String)
        ensures
            res@ == self.spec_text(),
    {
        match self {
            AccessCode::AccessCodeA => String::from_str("Access Code A"),
            AccessCode::AccessCodeB => String::from_str("Access Code B"),
            AccessCode::AccessCodeC => String::from_str("Access Code C"),
            AccessCode::AccessCodeD => String::from_str("Access Code D"),
        }
    }
}

impl TryFrom<u64> for AccessCode {
    type Error = ();

    fn try_from(value: u64) -> (res: Result<AccessCode, ()>) {
        match value {
            0b00 => Ok(AccessCode::AccessCodeA),
            0b01 => Ok(AccessCode::AccessCodeB),
            0b10 => Ok(AccessCode::AccessCodeC),
            0b11 => Ok(AccessCode::AccessCodeD),
            _ => Err(()),
        }
    }
}

impl vstd::std_specs::convert::TryFromSpecImpl<u64> for AccessCode {
    open spec fn obeys_try_from_spec() -> bool {
        true
    }

    open spec fn try_from_spec(value: u64) -> Result<AccessCode, ()> {
        AccessCode::spec_from_raw(value)
    }
}

/// Decoding the code of an access code gives it back, and a value decodes
/// exactly when it is below 4, to the access code whose code it is.
pub proof fn lemma_access_code_roundtrip(c: AccessCode, value: u64)
    ensures
        AccessCode::spec_from_raw(c.spec_raw()) == Ok::<AccessCode, ()>(c),
        AccessCode::spec_from_raw(value) is Ok <==> value < 4,
        AccessCode::spec_from_raw(value) matches Ok(d) ==> d.spec_raw() == value,
{
}

} // verus!
