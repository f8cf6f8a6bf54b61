use vstd::prelude::*;

verus! {

/// Network service access point identifier (clause 28.4.5.22).
#[derive(Debug, Clone, Copy, PartialEq, Eq)]
pub enum NSAPI {
    ReservedLow,
    DynamicallyAllocated(u8),
    ReservedHigh,
}

impl NSAPI {
    /// A dynamically allocated NSAPI lies in 1..=14.
    pub open spec fn wf(self) -> bool {
        self matches NSAPI::DynamicallyAllocated(x) ==> 1 <= x <= 14
    }

    pub open spec fn spec_raw(self) -> u64 {
        match self {
            NSAPI::ReservedLow => 0,
            NSAPI::DynamicallyAllocated(x) => x as u64,
            NSAPI::ReservedHigh => 15,
        }
    }

    /// The NSAPI that a raw value names: 0 and 15 reserved, 1 to 14
    /// dynamically allocated, anything larger none.
    pub open spec fn spec_from_raw(x: u64) -> Result<NSAPI, ()> {
        if x == 0 {
            Ok(NSAPI::ReservedLow)
        } else if x <= 14 {
            Ok(NSAPI::DynamicallyAllocated(x as u8))
        } else if x == 15 {
            Ok(NSAPI::ReservedHigh)
        } else {
            Err(())
        }
    }

    /// Converts this NSAPI back into its raw value.
    pub fn into_raw(self) -> (res: u64)
        ensures
            res == self.spec_raw(),
    {
        match self {
            NSAPI::ReservedLow => 0,
            NSAPI::DynamicallyAllocated(x) => x as u64,
            NSAPI::ReservedHigh => 15,
        }
    }
}

impl NSAPI {
    /// The text that names the NSAPI.
    pub open spec fn spec_text(self) -> Seq<char> {
        match self {
            NSAPI::ReservedLow => "Reserved (0)"@,
            NSAPI::ReservedHigh => "Reserved (15)"@,
            NSAPI::DynamicallyAllocated(x) => "Dynamically Allocated ("@ + crate::display::decimal(x as nat) + ")"@,
        }
    }

    /// The text that names the NSAPI.
    pub fn to_string(&self) -> (res: String)
        ensures
            res@ == self.spec_text(),
    {
        match self {
            NSAPI::ReservedLow => String::from_str("Reserved (0)"),
            NSAPI::ReservedHigh => String::from_str("Reserved (15)"),
            NSAPI::DynamicallyAllocated(x) => {
                let mut s = String::from_str("Dynamically Allocated (");
                crate::display::append_decimal(&mut s, *x as u64);
                s.append(")");
                s
            },
        }
    }
}

impl TryFrom<u64> for NSAPI {
    type Error = ();

    fn try_from(x: u64) -> (res: Result<NSAPI, ()>) {
        match x {
            0 => Ok(NSAPI::ReservedLow),
            1..=14 => Ok(NSAPI::DynamicallyAllocated(x as u8)),
            15 => Ok(NSAPI::ReservedHigh),
            _ => Err(()),
        }
    }
}

impl vstd::std_specs::convert::TryFromSpecImpl<u64> for NSAPI {
    open spec fn obeys_try_from_spec() -> bool {
        true
    }

    open spec fn try_from_spec(x: u64) -> Result<NSAPI, ()> {
        NSAPI::spec_from_raw(x)
    }
}

impl From<NSAPI> for u64 {
    fn from(e: NSAPI) -> (res: u64) {
        e.into_raw()
    }
}

impl vstd::std_specs::convert::FromSpecImpl<NSAPI> for u64 {
    open spec fn obeys_from_spec() -> bool {
        true
    }

    open spec fn from_spec(e: NSAPI) -> u64 {
        e.spec_raw()
    }
}

/// A well-formed NSAPI is named by its raw value; a raw value that names an
/// NSAPI names a well-formed one whose raw value it is.
pub proof fn lemma_nsapi_roundtrip(n: NSAPI, x: u64)
    ensures
        n.wf() ==> NSAPI::spec_from_raw(n.spec_raw()) == Ok::<NSAPI, ()>(n),
        NSAPI::spec_from_raw(x) is Ok <==> x <= 15,
        NSAPI::spec_from_raw(x) matches Ok(m) ==> m.wf() && m.spec_raw() == x,
{
}

} // verus!
