use vstd::prelude::*;

verus! {

/// Base frame length of an access field (clause 21.5.1).
#[derive(Debug, Clone, Copy, PartialEq, Eq)]
pub enum BaseFrameLength {
    /// Essentially "already assigned": the access code is meaningless in this access field.
    ReservedSubslot,
    /// CLCH opportunity: the access code is meaningless in this access field
    /// (common access for linearisation only).
    CLCHSubslot,
    /// Ongoing frame, a continuation of the ongoing access frame.
    OngoingFrame,
    // The following options indicate the start of a new access frame.
    Subslots1,
    Subslots2,
    Subslots3,
    Subslots4,
    Subslots5,
    Subslots6,
    Subslots8,
    Subslots10,
    Subslots12,
    Subslots16,
    Subslots20,
    Subslots24,
    Subslots32,
}

impl BaseFrameLength {
    /// The 4-bit code of each base frame length.
    pub open spec fn spec_raw(self) -> u64 {
        match self {
            BaseFrameLength::ReservedSubslot => 0,
            BaseFrameLength::CLCHSubslot => 1,
            BaseFrameLength::OngoingFrame => 2,
            BaseFrameLength::Subslots1 => 3,
            BaseFrameLength::Subslots2 => 4,
            BaseFrameLength::Subslots3 => 5,
            BaseFrameLength::Subslots4 => 6,
            BaseFrameLength::Subslots5 => 7,
            BaseFrameLength::Subslots6 => 8,
            BaseFrameLength::Subslots8 => 9,
            BaseFrameLength::Subslots10 => 10,
            BaseFrameLength::Subslots12 => 11,
            BaseFrameLength::Subslots16 => 12,
            BaseFrameLength::Subslots20 => 13,
            BaseFrameLength::Subslots24 => 14,
            BaseFrameLength::Subslots32 => 15,
        }
    }

    /// The base frame length that a raw value names, if any.
    pub open spec fn spec_from_raw(value: u64) -> Result<BaseFrameLength, ()> {
        match value {
            0 => Ok(BaseFrameLength::ReservedSubslot),
            1 => Ok(BaseFrameLength::CLCHSubslot),
            2 => Ok(BaseFrameLength::OngoingFrame),
            3 => Ok(BaseFrameLength::Subslots1),
            4 => Ok(BaseFrameLength::Subslots2),
            5 => Ok(BaseFrameLength::Subslots3),
            6 => Ok(BaseFrameLength::Subslots4),
            7 => Ok(BaseFrameLength::Subslots5),
            8 => Ok(BaseFrameLength::Subslots6),
            9 => Ok(BaseFrameLength::Subslots8),
            10 => Ok(BaseFrameLength::Subslots10),
            11 => Ok(BaseFrameLength::Subslots12),
            12 => Ok(BaseFrameLength::Subslots16),
            13 => Ok(BaseFrameLength::Subslots20),
            14 => Ok(BaseFrameLength::Subslots24),
            15 => Ok(BaseFrameLength::Subslots32),
            _ => Err(()),
        }
    }

    pub fn into_raw(self) -> (res: u64)
        ensures
            res == self.spec_raw(),
    {
        match self {
            BaseFrameLength::ReservedSubslot => 0b0000,
            BaseFrameLength::CLCHSubslot => 0b0001,
            BaseFrameLength::OngoingFrame => 0b0010,
            BaseFrameLength::Subslots1 => 0b0011,
            BaseFrameLength::Subslots2 => 0b0100,
            BaseFrameLength::Subslots3 => 0b0101,
            BaseFrameLength::Subslots4 => 0b0110,
            BaseFrameLength::Subslots5 => 0b0111,
            BaseFrameLength::Subslots6 => 0b1000,
            BaseFrameLength::Subslots8 => 0b1001,
            BaseFrameLength::Subslots10 => 0b1010,
            BaseFrameLength::Subslots12 => 0b1011,
            BaseFrameLength::Subslots16 => 0b1100,
            BaseFrameLength::Subslots20 => 0b1101,
            BaseFrameLength::Subslots24 => 0b1110,
            BaseFrameLength::Subslots32 => 0b1111,
        }
    }
}

impl BaseFrameLength {
    /// The text that names the base frame length.
    pub open spec fn spec_text(self) -> Seq<char> {
        match self {
            BaseFrameLength::ReservedSubslot => "Reserved Subslot"@,
            BaseFrameLength::CLCHSubslot => "CLCH Opportunity"@,
            BaseFrameLength::OngoingFrame => "Ongoing Frame"@,
            BaseFrameLength::Subslots1 => "1 Subslot"@,
            BaseFrameLength::Subslots2 => "2 Subslots"@,
            BaseFrameLength::Subslots3 => "3 Subslots"@,
            BaseFrameLength::Subslots4 => "4 Subslots"@,
            BaseFrameLength::Subslots5 => "5 Subslots"@,
            BaseFrameLength::Subslots6 => "6 Subslots"@,
            BaseFrameLength::Subslots8 => "8 Subslots"@,
            BaseFrameLength::Subslots10 => "10 Subslots"@,
            BaseFrameLength::Subslots12 => "12 Subslots"@,
            BaseFrameLength::Subslots16 => "16 Subslots"@,
            BaseFrameLength::Subslots20 => "20 Subslots"@,
            BaseFrameLength::Subslots24 => "24 Subslots"@,
            BaseFrameLength::Subslots32 => "32 Subslots"@,
        }
    }

    /// The text that names the base frame length.
    pub fn to_string(&self) -> (res: String)
        ensures
            res@ == self.spec_text(),
    {
        match self {
            BaseFrameLength::ReservedSubslot => String::from_str("Reserved Subslot"),
            BaseFrameLength::CLCHSubslot => String::from_str("CLCH Opportunity"),
            BaseFrameLength::OngoingFrame => String::from_str("Ongoing Frame"),
            BaseFrameLength::Subslots1 => String::from_str("1 Subslot"),
            BaseFrameLength::Subslots2 => String::from_str("2 Subslots"),
            BaseFrameLength::Subslots3 => String::from_str("3 Subslots"),
            BaseFrameLength::Subslots4 => String::from_str("4 Subslots"),
            BaseFrameLength::Subslots5 => String::from_str("5 Subslots"),
            BaseFrameLength::Subslots6 => String::from_str("6 Subslots"),
            BaseFrameLength::Subslots8 => String::from_str("8 Subslots"),
            BaseFrameLength::Subslots10 => String::from_str("10 Subslots"),
            BaseFrameLength::Subslots12 => String::from_str("12 Subslots"),
            BaseFrameLength::Subslots16 => String::from_str("16 Subslots"),
            BaseFrameLength::Subslots20 => String::from_str("20 Subslots"),
            BaseFrameLength::Subslots24 => String::from_str("24 Subslots"),
            BaseFrameLength::Subslots32 => String::from_str("32 Subslots"),
        }
    }
}

impl TryFrom<u64> for BaseFrameLength {
    type Error = ();

    fn try_from(value: u64) -> (res: Result<BaseFrameLength, ()>) {
        match value {
            0b0000 => Ok(BaseFrameLength::ReservedSubslot),
            0b0001 => Ok(BaseFrameLength::CLCHSubslot),
            0b0010 => Ok(BaseFrameLength::OngoingFrame),
            0b0011 => Ok(BaseFrameLength::Subslots1),
            0b0100 => Ok(BaseFrameLength::Subslots2),
            0b0101 => Ok(BaseFrameLength::Subslots3),
            0b0110 => Ok(BaseFrameLength::Subslots4),
            0b0111 => Ok(BaseFrameLength::Subslots5),
            0b1000 => Ok(BaseFrameLength::Subslots6),
            0b1001 => Ok(BaseFrameLength::Subslots8),
            0b1010 => Ok(BaseFrameLength::Subslots10),
            0b1011 => Ok(BaseFrameLength::Subslots12),
            0b1100 => Ok(BaseFrameLength::Subslots16),
            0b1101 => Ok(BaseFrameLength::Subslots20),
            0b1110 => Ok(BaseFrameLength::Subslots24),
            0b1111 => Ok(BaseFrameLength::Subslots32),
            _ => Err(()),
        }
    }
}

impl vstd::std_specs::convert::TryFromSpecImpl<u64> for BaseFrameLength {
    open spec fn obeys_try_from_spec() -> bool {
        true
    }

    open spec fn try_from_spec(value: u64) -> Result<BaseFrameLength, ()> {
        BaseFrameLength::spec_from_raw(value)
    }
}

/// Decoding the code of a base frame length gives it back, and a value
/// decodes exactly when it is below 16, to the length whose code it is.
pub proof fn lemma_base_frame_length_roundtrip(l: BaseFrameLength, value: u64)
    ensures
        BaseFrameLength::spec_from_raw(l.spec_raw()) == Ok::<BaseFrameLength, ()>(l),
        BaseFrameLength::spec_from_raw(value) is Ok <==> value < 16,
        BaseFrameLength::spec_from_raw(value) matches Ok(d) ==> d.spec_raw() == value,
{
}

} // verus!
