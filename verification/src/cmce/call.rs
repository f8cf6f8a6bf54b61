use vstd::prelude::*;
use crate::tetra_types::TetraAddress;

verus! {

/// States of a group call.
#[derive(Debug, Clone, Copy, PartialEq, Eq)]
pub enum GroupCallState {
    /// The call has been requested but setup signalling has not yet been sent.
    Pending,
    /// The call is active.
    Active,
    /// The call is in hangtime: no active speaker, but not yet terminated.
    Hangtime,
}

/// States of an individual call.
#[derive(Debug, Clone, Copy, PartialEq, Eq)]
pub enum IndividualCallState {
    /// The call has been requested but setup signalling has not yet been sent.
    Pending,
    /// Setup signalling has been sent; the called party has not yet indicated
    /// that it is alerting.
    SetupSent,
    /// The called party is alerting but has not yet accepted the call. On
    /// entering this state, call control informs the caller that the called
    /// party is alerting.
    CalledPartyAlerting,
    /// The call is in hangtime: no active speaker, but not yet terminated.
    Hangtime,
}

/// A group call.
pub struct GroupCall {
    /// The caller.
    pub caller: TetraAddress,
    /// The called group.
    pub callee: TetraAddress,
    /// The current state of the call.
    pub state: GroupCallState,
}

/// An individual call.
pub struct IndividualCall {
    /// The caller.
    pub caller: TetraAddress,
    /// The called party.
    pub callee: TetraAddress,
    /// The current state of the call.
    pub state: IndividualCallState,
}

/// The possible types of call.
pub enum CallType {
    Group(GroupCall),
    Individual(IndividualCall),
}

} // verus!
