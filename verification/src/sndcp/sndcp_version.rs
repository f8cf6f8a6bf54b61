use vstd::prelude::*;

verus! {

/// SNDCP version (clause 28.4.5.36).
#[derive(Debug, Clone, Copy, PartialEq, Eq)]
pub enum SNDCPVersion {
    /// Reserved (raw value 0).
    Reserved,
    /// Version 1 (raw value 1), the only version the standard defines.
    Version1,
}

impl SNDCPVersion {
    pub open spec fn spec_raw(self) -> u64 {
        match self {
            SNDCPVersion::Reserved => 0,
            SNDCPVersion::Version1 => 1,
        }
    }

    /// The version that a raw value names: 0 and 1, anything larger none.
    pub open spec fn spec_from_raw(x: u64) -> Result<SNDCPVersion, ()> {
        if x == 0 {
            Ok(SNDCPVersion::Reserved)
        } else if x == 1 {
            Ok(SNDCPVersion::Version1)
        } else {
            Err(())
        }
    }

    /// Converts this version back into its raw value.
    pub fn into_raw(self) -> (res: u64)
        ensures
            res == self.spec_raw(),
    {
        match self {
            SNDCPVersion::Reserved => 0,
            SNDCPVersion::Version1 => 1,
        }
    }
}

impl SNDCPVersion {
    /// The text that names the version.
    pub open spec fn spec_text(self) -> Seq<char> {
        match self {
            SNDCPVersion::Reserved => "Reserved"@,
            SNDCPVersion::Version1 => "Version 1"@,
        }
    }

    /// The text that names the version.
    pub fn to_string(&self) -> (res: String)
        ensures
            res@ == self.spec_text(),
    {
        match self {
            SNDCPVersion::Reserved => String::from_str("Reserved"),
            SNDCPVersion::Version1 => String::from_str("Version 1"),
        }
    }
}

impl TryFrom<u64> for SNDCPVersion {
    type Error = ();

    fn try_from(x: u64) -> (res: Result<SNDCPVersion, ()>) {
        match x {
            0 => Ok(SNDCPVersion::Reserved),
            1 => Ok(SNDCPVersion::Version1),
            _ => Err(()),
        }
    }
}

impl vstd::std_specs::convert::TryFromSpecImpl<u64> for SNDCPVersion {
    open spec fn obeys_try_from_spec() -> bool {
        true
    }

    open spec fn try_from_spec(x: u64) -> Result<SNDCPVersion, ()> {
        SNDCPVersion::spec_from_raw(x)
    }
}

impl From<SNDCPVersion> for u64 {
    fn from(e: SNDCPVersion) -> (res: u64) {
        e.into_raw()
    }
}

impl vstd::std_specs::convert::FromSpecImpl<SNDCPVersion> for u64 {
    open spec fn obeys_from_spec() -> bool {
        true
    }

    open spec fn from_spec(e: SNDCPVersion) -> u64 {
        e.spec_raw()
    }
}

/// A version is named by its raw value, and a raw value names a version
/// exactly when it is 0 or 1.
pub proof fn lemma_sndcp_version_roundtrip(v: SNDCPVersion, x: u64)
    ensures
        SNDCPVersion::spec_from_raw(v.spec_raw()) == Ok::<SNDCPVersion, ()>(v),
        SNDCPVersion::spec_from_raw(x) is Ok <==> x <= 1,
        SNDCPVersion::spec_from_raw(x) matches Ok(u) ==> u.spec_raw() == x,
{
}

} // verus!
