//! Verified core of a TETRA base station stack: bit-level PDU codecs for the
//! MAC and SNDCP layers, the logical-channel catalogue, TDMA time keeping,
//! tracking of the channels that mobile stations listen to, and the encoding
//! of the network time broadcast.

pub mod bits;
pub mod display;
pub mod pdu_parse_error;
pub mod tetra_types;
pub mod tdma_time;
pub mod channel_tracker;
pub mod slot_locator;
pub mod null_dev;
pub mod network_time;
pub mod umac;
pub mod sndcp;
pub mod tmv;
pub mod cmce;
pub mod stack_command;
