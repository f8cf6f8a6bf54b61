use vstd::prelude::*;
use crate::channel_tracker::NUM_TIMESLOTS;
use crate::tdma_time::TdmaTime;
use crate::tetra_types::TetraAddress;

verus! {

/// Something that knows on which downlink timeslots an address can be reached.
pub trait SlotLocator {
    /// A mask over the timeslots: entry `i` tells whether signalling for
    /// `address` should be sent on timeslot `i + 1` at `dltime`.
    fn get_slots_for_address(&self, dltime: TdmaTime, address: TetraAddress) -> [bool; NUM_TIMESLOTS];
}

/// A slot locator that always answers the MCCH, timeslot 1.
pub struct SimpleSlotLocator {}

impl SimpleSlotLocator {
    pub fn new() -> (res: SimpleSlotLocator) {
        SimpleSlotLocator {}
    }
}

impl SlotLocator for SimpleSlotLocator {
    fn get_slots_for_address(&self, _dltime: TdmaTime, _address: TetraAddress) -> (res: [bool; NUM_TIMESLOTS])
        ensures
            res@ == seq![true, false, false, false],
    {
        // Always the MCCH.
        let res = [true, false, false, false];
        assert(res@ =~= seq![true, false, false, false]);
        res
    }
}

} // verus!
