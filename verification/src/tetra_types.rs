use vstd::prelude::*;

verus! {

/// Link direction.
#[derive(Debug, Clone, Copy, PartialEq, Eq)]
pub enum Direction {
    /// Downlink: base station to mobile station.
    Dl,
    /// Uplink: mobile station to base station.
    Ul,
    /// Both directions.
    Both,
}

/// Kind of short subscriber identity an address carries.
#[derive(Debug, Clone, Copy, PartialEq, Eq)]
pub enum SsiType {
    /// Individual SSI.
    Issi,
    /// Group SSI.
    Gssi,
    /// Un-exchanged SSI.
    Ussi,
    /// SwMI management identity.
    Smi,
    /// Event label.
    EventLabel,
}

/// A TETRA address: a short subscriber identity and its kind.
#[derive(Debug, Clone, Copy, PartialEq, Eq)]
pub struct TetraAddress {
    pub ssi: u32,
    pub ssi_type: SsiType,
}

impl TetraAddress {
    /// The address of an individual subscriber.
    pub fn issi(ssi: u32) -> (res: TetraAddress)
        ensures
            res == (TetraAddress { ssi, ssi_type: SsiType::Issi }),
    {
        TetraAddress { ssi, ssi_type: SsiType::Issi }
    }

    /// An address of the given kind.
    pub fn new(ssi: u32, ssi_type: SsiType) -> (res: TetraAddress)
        ensures
            res == (TetraAddress { ssi, ssi_type }),
    {
        TetraAddress { ssi, ssi_type }
    }
}

} // verus!
