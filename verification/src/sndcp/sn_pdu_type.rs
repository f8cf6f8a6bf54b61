use vstd::prelude::*;
use crate::tetra_types::Direction;

verus! {

/// SN PDU type (clause 28.4.5.38). Codes 0 and 10 name a different type on
/// each link direction.
#[derive(Debug, Clone, Copy, PartialEq, Eq)]
pub enum SNPDUType {
    ActivatePdpContextDemand,
    ActivatePdpContextAccept,
    DeactivatePdpContextAccept,
    DeactivatePdpContextDemand,
    ActivatePdpContextReject,
    Unitdata,
    Data,
    DataTransmitRequest,
    DataTransmitResponse,
    EndOfData,
    Reconnect,
    PageRequest,
    PageResponse,
    NotSupported,
    DataPriority,
    Modify,
    Reserved,
}

impl SNPDUType {
    pub open spec fn spec_raw(self) -> u64 {
        match self {
            SNPDUType::ActivatePdpContextDemand => 0,
            SNPDUType::ActivatePdpContextAccept => 0,
            SNPDUType::DeactivatePdpContextAccept => 1,
            SNPDUType::DeactivatePdpContextDemand => 2,
            SNPDUType::ActivatePdpContextReject => 3,
            SNPDUType::Unitdata => 4,
            SNPDUType::Data => 5,
            SNPDUType::DataTransmitRequest => 6,
            SNPDUType::DataTransmitResponse => 7,
            SNPDUType::EndOfData => 8,
            SNPDUType::Reconnect => 9,
            SNPDUType::PageRequest => 10,
            SNPDUType::PageResponse => 10,
            SNPDUType::NotSupported => 11,
            SNPDUType::DataPriority => 12,
            SNPDUType::Modify => 13,
            SNPDUType::Reserved => 14,
        }
    }

    /// The type that a code names on a link direction: codes 0 and 10 name
    /// one type on the uplink and another on the downlink and none for
    /// `Both`; codes from 14 on are reserved.
    pub open spec fn spec_from_raw(value: u64, direction: Direction) -> Result<SNPDUType, ()> {
        if value == 0 {
            match direction {
                Direction::Ul => Ok(SNPDUType::ActivatePdpContextDemand),
                Direction::Dl => Ok(SNPDUType::ActivatePdpContextAccept),
                Direction::Both => Err(()),
            }
        } else if value == 1 {
            Ok(SNPDUType::DeactivatePdpContextAccept)
        } else if value == 2 {
            Ok(SNPDUType::DeactivatePdpContextDemand)
        } else if value == 3 {
            Ok(SNPDUType::ActivatePdpContextReject)
        } else if value == 4 {
            Ok(SNPDUType::Unitdata)
        } else if value == 5 {
            Ok(SNPDUType::Data)
        } else if value == 6 {
            Ok(SNPDUType::DataTransmitRequest)
        } else if value == 7 {
            Ok(SNPDUType::DataTransmitResponse)
        } else if value == 8 {
            Ok(SNPDUType::EndOfData)
        } else if value == 9 {
            Ok(SNPDUType::Reconnect)
        } else if value == 10 {
            match direction {
                Direction::Dl => Ok(SNPDUType::PageRequest),
                Direction::Ul => Ok(SNPDUType::PageResponse),
                Direction::Both => Err(()),
            }
        } else if value == 11 {
            Ok(SNPDUType::NotSupported)
        } else if value == 12 {
            Ok(SNPDUType::DataPriority)
        } else if value == 13 {
            Ok(SNPDUType::Modify)
        } else {
            Ok(SNPDUType::Reserved)
        }
    }

    /// Whether the type can be named on the given direction: the types that
    /// share a code with another one belong to one direction only.
    pub open spec fn belongs_to(self, direction: Direction) -> bool {
        match self {
            SNPDUType::ActivatePdpContextDemand => direction == Direction::Ul,
            SNPDUType::PageResponse => direction == Direction::Ul,
            SNPDUType::ActivatePdpContextAccept => direction == Direction::Dl,
            SNPDUType::PageRequest => direction == Direction::Dl,
            _ => true,
        }
    }

    /// The type that a code names on a link direction.
    pub fn from_raw(value: u64, direction: Direction) -> (res: Result<SNPDUType, ()>)
        ensures
            res == SNPDUType::spec_from_raw(value, direction),
    {
        match value {
            0 => match direction {
                Direction::Ul => Ok(SNPDUType::ActivatePdpContextDemand),
                Direction::Dl => Ok(SNPDUType::ActivatePdpContextAccept),
                _ => Err(()),
            },
            1 => Ok(SNPDUType::DeactivatePdpContextAccept),
            2 => Ok(SNPDUType::DeactivatePdpContextDemand),
            3 => Ok(SNPDUType::ActivatePdpContextReject),
            4 => Ok(SNPDUType::Unitdata),
            5 => Ok(SNPDUType::Data),
            6 => Ok(SNPDUType::DataTransmitRequest),
            7 => Ok(SNPDUType::DataTransmitResponse),
            8 => Ok(SNPDUType::EndOfData),
            9 => Ok(SNPDUType::Reconnect),
            10 => match direction {
                Direction::Dl => Ok(SNPDUType::PageRequest),
                Direction::Ul => Ok(SNPDUType::PageResponse),
                _ => Err(()),
            },
            11 => Ok(SNPDUType::NotSupported),
            12 => Ok(SNPDUType::DataPriority),
            13 => Ok(SNPDUType::Modify),
            _ => Ok(SNPDUType::Reserved),
        }
    }

    /// The code of this type.
    pub fn into_raw(self) -> (res: u64)
        ensures
            res == self.spec_raw(),
    {
        match self {
            SNPDUType::ActivatePdpContextDemand => 0,
            SNPDUType::ActivatePdpContextAccept => 0,
            SNPDUType::DeactivatePdpContextAccept => 1,
            SNPDUType::DeactivatePdpContextDemand => 2,
            SNPDUType::ActivatePdpContextReject => 3,
            SNPDUType::Unitdata => 4,
            SNPDUType::Data => 5,
            SNPDUType::DataTransmitRequest => 6,
            SNPDUType::DataTransmitResponse => 7,
            SNPDUType::EndOfData => 8,
            SNPDUType::Reconnect => 9,
            SNPDUType::PageRequest => 10,
            SNPDUType::PageResponse => 10,
            SNPDUType::NotSupported => 11,
            SNPDUType::DataPriority => 12,
            SNPDUType::Modify => 13,
            SNPDUType::Reserved => 14,
        }
    }
}

/// On the uplink and the downlink every code names a type, whose code is the
/// value with everything from 14 on folded to 14, and which belongs to that
/// direction; a type that belongs to a direction is named there by its code.
/// On `Both`, exactly the codes 0 and 10 name nothing.
pub proof fn lemma_sn_pdu_type_roundtrip(t: SNPDUType, value: u64, direction: Direction)
    ensures
        direction != Direction::Both ==> (SNPDUType::spec_from_raw(value, direction) matches Ok(u)
            && u.spec_raw() == (if value < 14 { value } else { 14 })
            && u.belongs_to(direction)),
        direction == Direction::Both ==> (SNPDUType::spec_from_raw(value, direction) is Err <==> (value == 0 || value == 10)),
        t.belongs_to(direction) ==> SNPDUType::spec_from_raw(t.spec_raw(), direction) == Ok::<SNPDUType, ()>(t),
{
}

} // verus!
