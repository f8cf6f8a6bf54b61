//! SNDCP: the sub-network dependent convergence protocol, its enumerated
//! fields and PDUs, and the base station entity that receives them.

pub mod address_type_identifier_in_demand;
pub mod nsapi;
pub mod packet_data_ms_type;
pub mod sndcp_version;
pub mod sn_pdu_type;
pub mod pcomp_negotiation;
pub mod sn_activate_pdp_context_demand;
pub mod sndcp_bs;
