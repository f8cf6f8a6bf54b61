use vstd::prelude::*;
use crate::bits::BitBuffer;

verus! {

/// Why a radio device failed to exchange a timeslot.
#[derive(Debug, Clone, Copy, PartialEq, Eq)]
pub enum RxTxDevError {
    /// The device did not complete the exchange.
    DeviceFailure,
}

/// A null receive/transmit device that always succeeds: it sends nothing
/// anywhere and receives nothing.
pub struct RxTxDevNull {}

impl RxTxDevNull {
    pub fn new() -> (res: RxTxDevNull) {
        RxTxDevNull {}
    }

    /// Exchanges one timeslot: takes the bits to transmit and gives the bits
    /// received, one entry per receive burst; the null device receives no burst.
    pub fn rxtx_timeslot(&mut self, _tx_slot: &[BitBuffer]) -> (res: Result<Vec<Option<BitBuffer>>, RxTxDevError>)
        ensures
            res matches Ok(v) && v@.len() == 0,
    {
        Ok(Vec::new())
    }
}

} // verus!
