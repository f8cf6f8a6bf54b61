//! The TMV service access point: logical channels.

pub mod logical_chans;
