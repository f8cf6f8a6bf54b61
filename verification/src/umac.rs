//! Upper MAC: ACCESS-ASSIGN PDUs and the fields they are built of.

pub mod access_code;
pub mod base_frame_length;
pub mod access_field;
pub mod usage_marker;
pub mod access_assign;
pub mod access_assign_fr18;
