use vstd::prelude::*;

verus! {

/// Packet data MS type (clause 28.4.5.26).
#[derive(Debug, Clone, Copy, PartialEq, Eq)]
pub enum PacketDataMSType {
    TypeA,
    TypeB,
    TypeC,
    TypeD,
    Reserved(u8),
}

impl PacketDataMSType {
    /// A reserved type carries a value in 4..=15.
    pub open spec fn wf(self) -> bool {
        self matches PacketDataMSType::Reserved(x) ==> 4 <= x <= 15
    }

    pub open spec fn spec_raw(self) -> u64 {
        match self {
            PacketDataMSType::TypeA => 0,
            PacketDataMSType::TypeB => 1,
            PacketDataMSType::TypeC => 2,
            PacketDataMSType::TypeD => 3,
            PacketDataMSType::Reserved(x) => x as u64,
        }
    }

    /// The type that a raw value names: 0 to 3 by name, 4 to 15 reserved,
    /// anything larger none.
    pub open spec fn spec_from_raw(x: u64) -> Result<PacketDataMSType, ()> {
        if x == 0 {
            Ok(PacketDataMSType::TypeA)
        } else if x == 1 {
            Ok(PacketDataMSType::TypeB)
        } else if x == 2 {
            Ok(PacketDataMSType::TypeC)
        } else if x == 3 {
            Ok(PacketDataMSType::TypeD)
        } else if x <= 15 {
            Ok(PacketDataMSType::Reserved(x as u8))
        } else {
            Err(())
        }
    }

    /// Converts this type back into its raw value.
    pub fn into_raw(self) -> (res: u64)
        ensures
            res == self.spec_raw(),
    {
        match self {
            PacketDataMSType::TypeA => 0,
            PacketDataMSType::TypeB => 1,
            PacketDataMSType::TypeC => 2,
            PacketDataMSType::TypeD => 3,
            PacketDataMSType::Reserved(x) => x as u64,
        }
    }
}

impl PacketDataMSType {
    /// The text that names the type.
    pub open spec fn spec_text(self) -> Seq<char> {
        match self {
            PacketDataMSType::TypeA => "Type A"@,
            PacketDataMSType::TypeB => "Type B"@,
            PacketDataMSType::TypeC => "Type C"@,
            PacketDataMSType::TypeD => "Type D"@,
            PacketDataMSType::Reserved(x) => "Reserved ("@ + crate::display::decimal(x as nat) + ")"@,
        }
    }

    /// The text that names the type.
    pub fn to_string(&self) -> (res: String)
        ensures
            res@ == self.spec_text(),
    {
        match self {
            PacketDataMSType::TypeA => String::from_str("Type A"),
            PacketDataMSType::TypeB => String::from_str("Type B"),
            PacketDataMSType::TypeC => String::from_str("Type C"),
            PacketDataMSType::TypeD => String::from_str("Type D"),
            PacketDataMSType::Reserved(x) => {
                let mut s = String::from_str("Reserved (");
                crate::display::append_decimal(&mut s, *x as u64);
                s.append(")");
                s
            },
        }
    }
}

impl TryFrom<u64> for PacketDataMSType {
    type Error = ();

    fn try_from(x: u64) -> (res: Result<PacketDataMSType, ()>) {
        match x {
            0 => Ok(PacketDataMSType::TypeA),
            1 => Ok(PacketDataMSType::TypeB),
            2 => Ok(PacketDataMSType::TypeC),
            3 => Ok(PacketDataMSType::TypeD),
            4..=15 => Ok(PacketDataMSType::Reserved(x as u8)),
            _ => Err(()),
        }
    }
}

impl vstd::std_specs::convert::TryFromSpecImpl<u64> for PacketDataMSType {
    open spec fn obeys_try_from_spec() -> bool {
        true
    }

    open spec fn try_from_spec(x: u64) -> Result<PacketDataMSType, ()> {
        PacketDataMSType::spec_from_raw(x)
    }
}

impl From<PacketDataMSType> for u64 {
    fn from(e: PacketDataMSType) -> (res: u64) {
        e.into_raw()
    }
}

impl vstd::std_specs::convert::FromSpecImpl<PacketDataMSType> for u64 {
    open spec fn obeys_from_spec() -> bool {
        true
    }

    open spec fn from_spec(e: PacketDataMSType) -> u64 {
        e.spec_raw()
    }
}

/// A well-formed type is named by its raw value; a raw value that names a
/// type names a well-formed one whose raw value it is.
pub proof fn lemma_packet_data_ms_type_roundtrip(t: PacketDataMSType, x: u64)
    ensures
        t.wf() ==> PacketDataMSType::spec_from_raw(t.spec_raw()) == Ok::<PacketDataMSType, ()>(t),
        PacketDataMSType::spec_from_raw(x) is Ok <==> x <= 15,
        PacketDataMSType::spec_from_raw(x) matches Ok(u) ==> u.wf() && u.spec_raw() == x,
{
}

} // verus!
