use vstd::prelude::*;

verus! {

/// Address type identifier in demand (clause 28.4.5.4).
#[derive(Debug, Clone, Copy, PartialEq, Eq)]
pub enum AddressTypeIdentifierInDemand {
    IPv4Static,
    IPv4Dynamic,
    IPv6,
    MobileIPv4ForeignAgentCareOfAddressRequested,
    MobileIPv4CoLocatedCareOfAddressRequested,
    PrimaryNSAPI,
    Reserved(u8),
}

impl AddressTypeIdentifierInDemand {
    /// A reserved identifier carries a value from 6 on.
    pub open spec fn wf(self) -> bool {
        self matches AddressTypeIdentifierInDemand::Reserved(x) ==> x >= 6
    }

    pub open spec fn spec_raw(self) -> u64 {
        match self {
            AddressTypeIdentifierInDemand::IPv4Static => 0,
            AddressTypeIdentifierInDemand::IPv4Dynamic => 1,
            AddressTypeIdentifierInDemand::IPv6 => 2,
            AddressTypeIdentifierInDemand::MobileIPv4ForeignAgentCareOfAddressRequested => 3,
            AddressTypeIdentifierInDemand::MobileIPv4CoLocatedCareOfAddressRequested => 4,
            AddressTypeIdentifierInDemand::PrimaryNSAPI => 5,
            AddressTypeIdentifierInDemand::Reserved(x) => x as u64,
        }
    }

    /// The identifier that a raw value names: 0 to 5 by name, 6 to 255
    /// reserved, anything larger none.
    pub open spec fn spec_from_raw(x: u64) -> Result<AddressTypeIdentifierInDemand, ()> {
        if x == 0 {
            Ok(AddressTypeIdentifierInDemand::IPv4Static)
        } else if x == 1 {
            Ok(AddressTypeIdentifierInDemand::IPv4Dynamic)
        } else if x == 2 {
            Ok(AddressTypeIdentifierInDemand::IPv6)
        } else if x == 3 {
            Ok(AddressTypeIdentifierInDemand::MobileIPv4ForeignAgentCareOfAddressRequested)
        } else if x == 4 {
            Ok(AddressTypeIdentifierInDemand::MobileIPv4CoLocatedCareOfAddressRequested)
        } else if x == 5 {
            Ok(AddressTypeIdentifierInDemand::PrimaryNSAPI)
        } else if x <= 255 {
            Ok(AddressTypeIdentifierInDemand::Reserved(x as u8))
        } else {
            Err(())
        }
    }

    /// Converts this identifier back into its raw value.
    pub fn into_raw(self) -> (res: u64)
        ensures
            res == self.spec_raw(),
    {
        match self {
            AddressTypeIdentifierInDemand::IPv4Static => 0,
            AddressTypeIdentifierInDemand::IPv4Dynamic => 1,
            AddressTypeIdentifierInDemand::IPv6 => 2,
            AddressTypeIdentifierInDemand::MobileIPv4ForeignAgentCareOfAddressRequested => 3,
            AddressTypeIdentifierInDemand::MobileIPv4CoLocatedCareOfAddressRequested => 4,
            AddressTypeIdentifierInDemand::PrimaryNSAPI => 5,
            AddressTypeIdentifierInDemand::Reserved(x) => x as u64,
        }
    }
}

impl AddressTypeIdentifierInDemand {
    /// The text that names the identifier.
    pub open spec fn spec_text(self) -> Seq<char> {
        match self {
            AddressTypeIdentifierInDemand::IPv4Static => "IPv4 Static"@,
            AddressTypeIdentifierInDemand::IPv4Dynamic => "IPv4 Dynamic"@,
            AddressTypeIdentifierInDemand::IPv6 => "IPv6"@,
            AddressTypeIdentifierInDemand::MobileIPv4ForeignAgentCareOfAddressRequested => "Mobile IPv4 Foreign Agent Care-of-Address Requested"@,
            AddressTypeIdentifierInDemand::MobileIPv4CoLocatedCareOfAddressRequested => "Mobile IPv4 Co-Located Care-of-Address Requested"@,
            AddressTypeIdentifierInDemand::PrimaryNSAPI => "Primary NSAPI"@,
            AddressTypeIdentifierInDemand::Reserved(x) => "Reserved ("@ + crate::display::decimal(x as nat) + ")"@,
        }
    }

    /// The text that names the identifier.
    pub fn to_string(&self) -> (res: String)
        ensures
            res@ == self.spec_text(),
    {
        match self {
            AddressTypeIdentifierInDemand::IPv4Static => String::from_str("IPv4 Static"),
            AddressTypeIdentifierInDemand::IPv4Dynamic => String::from_str("IPv4 Dynamic"),
            AddressTypeIdentifierInDemand::IPv6 => String::from_str("IPv6"),
            AddressTypeIdentifierInDemand::MobileIPv4ForeignAgentCareOfAddressRequested => String::from_str("Mobile IPv4 Foreign Agent Care-of-Address Requested"),
            AddressTypeIdentifierInDemand::MobileIPv4CoLocatedCareOfAddressRequested => String::from_str("Mobile IPv4 Co-Located Care-of-Address Requested"),
            AddressTypeIdentifierInDemand::PrimaryNSAPI => String::from_str("Primary NSAPI"),
            AddressTypeIdentifierInDemand::Reserved(x) => {
                let mut s = String::from_str("Reserved (");
                crate::display::append_decimal(&mut s, *x as u64);
                s.append(")");
                s
            },
        }
    }
}

impl TryFrom<u64> for AddressTypeIdentifierInDemand {
    type Error = ();

    fn try_from(x: u64) -> (res: Result<AddressTypeIdentifierInDemand, ()>) {
        match x {
            0 => Ok(AddressTypeIdentifierInDemand::IPv4Static),
            1 => Ok(AddressTypeIdentifierInDemand::IPv4Dynamic),
            2 => Ok(AddressTypeIdentifierInDemand::IPv6),
            3 => Ok(AddressTypeIdentifierInDemand::MobileIPv4ForeignAgentCareOfAddressRequested),
            4 => Ok(AddressTypeIdentifierInDemand::MobileIPv4CoLocatedCareOfAddressRequested),
            5 => Ok(AddressTypeIdentifierInDemand::PrimaryNSAPI),
            6..=255 => Ok(AddressTypeIdentifierInDemand::Reserved(x as u8)),
            _ => Err(()),
        }
    }
}

impl vstd::std_specs::convert::TryFromSpecImpl<u64> for AddressTypeIdentifierInDemand {
    open spec fn obeys_try_from_spec() -> bool {
        true
    }

    open spec fn try_from_spec(x: u64) -> Result<AddressTypeIdentifierInDemand, ()> {
        AddressTypeIdentifierInDemand::spec_from_raw(x)
    }
}

impl From<AddressTypeIdentifierInDemand> for u64 {
    fn from(e: AddressTypeIdentifierInDemand) -> (res: u64) {
        e.into_raw()
    }
}

impl vstd::std_specs::convert::FromSpecImpl<AddressTypeIdentifierInDemand> for u64 {
    open spec fn obeys_from_spec() -> bool {
        true
    }

    open spec fn from_spec(e: AddressTypeIdentifierInDemand) -> u64 {
        e.spec_raw()
    }
}

/// A well-formed identifier is named by its raw value; a raw value that names
/// an identifier names a well-formed one whose raw value it is.
pub proof fn lemma_address_type_identifier_roundtrip(a: AddressTypeIdentifierInDemand, x: u64)
    ensures
        a.wf() ==> AddressTypeIdentifierInDemand::spec_from_raw(a.spec_raw()) == Ok::<AddressTypeIdentifierInDemand, ()>(a),
        AddressTypeIdentifierInDemand::spec_from_raw(x) is Ok <==> x <= 255,
        AddressTypeIdentifierInDemand::spec_from_raw(x) matches Ok(b) ==> b.wf() && b.spec_raw() == x,
{
}

} // verus!
