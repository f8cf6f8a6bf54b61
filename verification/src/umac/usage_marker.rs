use vstd::prelude::*;

verus! {

/// Downlink usage marker of an ACCESS-ASSIGN PDU (clause 21.4.7.2): what the
/// downlink of the slot carries.
#[derive(Debug, Clone, Copy, PartialEq, Eq)]
pub enum AccessAssignDlUsage {
    /// Marker 0: unallocated.
    Unallocated,
    /// Marker 1: assigned control channel.
    AssignedControl,
    /// Marker 2: common control channel.
    CommonControl,
    /// Marker 3: reserved.
    Reserved,
    /// Markers 4 to 63: traffic of the circuit with this usage marker.
    Traffic(u8),
}

/// Uplink usage marker of an ACCESS-ASSIGN PDU (clause 21.4.7.2).
#[derive(Debug, Clone, Copy, PartialEq, Eq)]
pub enum AccessAssignUlUsage {
    /// Marker 0: unallocated (UMx).
    Unallocated,
    /// Markers 1 to 3: reserved.
    Reserved(u8),
    /// Markers 4 to 63: traffic of the circuit with this usage marker (UMt).
    Traffic(u8),
}

impl AccessAssignDlUsage {
    /// A traffic marker lies in 4..=63.
    pub open spec fn wf(self) -> bool {
        self matches AccessAssignDlUsage::Traffic(m) ==> 4 <= m < 64
    }

    pub open spec fn spec_from_usage_marker(marker: u8) -> AccessAssignDlUsage {
        if marker == 0 {
            AccessAssignDlUsage::Unallocated
        } else if marker == 1 {
            AccessAssignDlUsage::AssignedControl
        } else if marker == 2 {
            AccessAssignDlUsage::CommonControl
        } else if marker == 3 {
            AccessAssignDlUsage::Reserved
        } else {
            AccessAssignDlUsage::Traffic(marker)
        }
    }

    pub open spec fn spec_usage_marker(self) -> u8 {
        match self {
            AccessAssignDlUsage::Unallocated => 0,
            AccessAssignDlUsage::AssignedControl => 1,
            AccessAssignDlUsage::CommonControl => 2,
            AccessAssignDlUsage::Reserved => 3,
            AccessAssignDlUsage::Traffic(m) => m,
        }
    }

    /// The downlink usage that a marker names.
    pub fn from_usage_marker(marker: u8) -> (res: AccessAssignDlUsage)
        ensures
            res == AccessAssignDlUsage::spec_from_usage_marker(marker),
    {
        match marker {
            0 => AccessAssignDlUsage::Unallocated,
            1 => AccessAssignDlUsage::AssignedControl,
            2 => AccessAssignDlUsage::CommonControl,
            3 => AccessAssignDlUsage::Reserved,
            _ => AccessAssignDlUsage::Traffic(marker),
        }
    }

    /// The marker that names this downlink usage.
    pub fn to_usage_marker(&self) -> (res: u8)
        ensures
            res == self.spec_usage_marker(),
    {
        match self {
            AccessAssignDlUsage::Unallocated => 0,
            AccessAssignDlUsage::AssignedControl => 1,
            AccessAssignDlUsage::CommonControl => 2,
            AccessAssignDlUsage::Reserved => 3,
            AccessAssignDlUsage::Traffic(m) => *m,
        }
    }

    /// Whether the downlink carries traffic.
    pub fn is_traffic(&self) -> (res: bool)
        ensures
            res == (*self is Traffic),
    {
        match self {
            AccessAssignDlUsage::Traffic(_) => true,
            _ => false,
        }
    }
}

impl AccessAssignUlUsage {
    /// A reserved marker lies in 1..=3, a traffic marker in 4..=63.
    pub open spec fn wf(self) -> bool {
        match self {
            AccessAssignUlUsage::Unallocated => true,
            AccessAssignUlUsage::Reserved(m) => 1 <= m <= 3,
            AccessAssignUlUsage::Traffic(m) => 4 <= m < 64,
        }
    }

    pub open spec fn spec_from_usage_marker(marker: u8) -> Option<AccessAssignUlUsage> {
        if marker == 0 {
            Some(AccessAssignUlUsage::Unallocated)
        } else if marker <= 3 {
            Some(AccessAssignUlUsage::Reserved(marker))
        } else if marker < 64 {
            Some(AccessAssignUlUsage::Traffic(marker))
        } else {
            None
        }
    }

    pub open spec fn spec_usage_marker(self) -> u8 {
        match self {
            AccessAssignUlUsage::Unallocated => 0,
            AccessAssignUlUsage::Reserved(m) => m,
            AccessAssignUlUsage::Traffic(m) => m,
        }
    }

    /// The uplink usage that a marker names; `None` for values above 63,
    /// which no 6-bit field holds.
    pub fn from_usage_marker(marker: u8) -> (res: Option<AccessAssignUlUsage>)
        ensures
            res == AccessAssignUlUsage::spec_from_usage_marker(marker),
    {
        if marker == 0 {
            Some(AccessAssignUlUsage::Unallocated)
        } else if marker <= 3 {
            Some(AccessAssignUlUsage::Reserved(marker))
        } else if marker < 64 {
            Some(AccessAssignUlUsage::Traffic(marker))
        } else {
            None
        }
    }

    /// The marker that names this uplink usage.
    pub fn to_usage_marker(&self) -> (res: u8)
        ensures
            res == self.spec_usage_marker(),
    {
        match self {
            AccessAssignUlUsage::Unallocated => 0,
            AccessAssignUlUsage::Reserved(m) => *m,
            AccessAssignUlUsage::Traffic(m) => *m,
        }
    }

    /// Whether the uplink carries traffic.
    pub fn is_traffic(&self) -> (res: bool)
        ensures
            res == (*self is Traffic),
    {
        match self {
            AccessAssignUlUsage::Traffic(_) => true,
            _ => false,
        }
    }
}

impl AccessAssignDlUsage {
    /// The text that describes the downlink usage.
    pub open spec fn spec_text(self) -> Seq<char> {
        match self {
            AccessAssignDlUsage::Unallocated => "Unallocated"@,
            AccessAssignDlUsage::AssignedControl => "Assigned Control"@,
            AccessAssignDlUsage::CommonControl => "Common Control"@,
            AccessAssignDlUsage::Reserved => "Reserved"@,
            AccessAssignDlUsage::Traffic(m) => "Traffic ("@ + crate::display::decimal(m as nat) + ")"@,
        }
    }

    /// The text that describes the downlink usage.
    pub fn to_string(&self) -> (res: String)
        ensures
            res@ == self.spec_text(),
    {
        match self {
            AccessAssignDlUsage::Unallocated => String::from_str("Unallocated"),
            AccessAssignDlUsage::AssignedControl => String::from_str("Assigned Control"),
            AccessAssignDlUsage::CommonControl => String::from_str("Common Control"),
            AccessAssignDlUsage::Reserved => String::from_str("Reserved"),
            AccessAssignDlUsage::Traffic(m) => {
                let mut s = String::from_str("Traffic (");
                crate::display::append_decimal(&mut s, *m as u64);
                s.append(")");
                s
            },
        }
    }
}

impl AccessAssignUlUsage {
    /// The text that describes the uplink usage.
    pub open spec fn spec_text(self) -> Seq<char> {
        match self {
            AccessAssignUlUsage::Unallocated => "Unallocated"@,
            AccessAssignUlUsage::Reserved(m) => "Reserved ("@ + crate::display::decimal(m as nat) + ")"@,
            AccessAssignUlUsage::Traffic(m) => "Traffic ("@ + crate::display::decimal(m as nat) + ")"@,
        }
    }

    /// The text that describes the uplink usage.
    pub fn to_string(&self) -> (res: String)
        ensures
            res@ == self.spec_text(),
    {
        match self {
            AccessAssignUlUsage::Unallocated => String::from_str("Unallocated"),
            AccessAssignUlUsage::Reserved(m) => {
                let mut s = String::from_str("Reserved (");
                crate::display::append_decimal(&mut s, *m as u64);
                s.append(")");
                s
            },
            AccessAssignUlUsage::Traffic(m) => {
                let mut s = String::from_str("Traffic (");
                crate::display::append_decimal(&mut s, *m as u64);
                s.append(")");
                s
            },
        }
    }
}

/// Usage markers round-trip: a well-formed usage is named by its marker, and a
/// marker below 64 that names a usage is that usage's marker.
pub proof fn lemma_usage_marker_roundtrip(dl: AccessAssignDlUsage, ul: AccessAssignUlUsage, marker: u8)
    ensures
        dl.wf() ==> AccessAssignDlUsage::spec_from_usage_marker(dl.spec_usage_marker()) == dl,
        marker < 64 ==> AccessAssignDlUsage::spec_from_usage_marker(marker).wf()
            && AccessAssignDlUsage::spec_from_usage_marker(marker).spec_usage_marker() == marker,
        ul.wf() ==> AccessAssignUlUsage::spec_from_usage_marker(ul.spec_usage_marker()) == Some(ul),
        AccessAssignUlUsage::spec_from_usage_marker(marker) is Some <==> marker < 64,
        AccessAssignUlUsage::spec_from_usage_marker(marker) matches Some(u) ==> u.wf() && u.spec_usage_marker() == marker,
{
}

} // verus!
