use vstd::prelude::*;

verus! {

/// Why decoding a PDU from a bit buffer failed.
#[derive(Debug, Clone, Copy, PartialEq, Eq)]
pub enum PduParseErr {
    /// The buffer held fewer bits than the named field needs.
    BufferEnded { field: &'static str },
    /// The named field held a value that its type does not admit.
    InvalidValue { field: &'static str, value: u64 },
    /// The PDU type field did not hold the type that the decoder expects.
    InvalidPduType { expected: u64, found: u64 },
}

} // verus!
