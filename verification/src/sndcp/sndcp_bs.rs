use vstd::prelude::*;
use crate::bits::{BitBuffer, bits_to_nat};
use crate::pdu_parse_error::PduParseErr;
use crate::sndcp::sn_activate_pdp_context_demand::SNActivatePdpContextDemand;
use crate::sndcp::sn_pdu_type::SNPDUType;
use crate::tetra_types::Direction;

verus! {

/// What the SNDCP entity made of an SDU received on the uplink.
#[derive(Debug, Clone, Copy, PartialEq, Eq)]
pub enum SndcpRxOutcome {
    /// The SDU holds fewer than the four bits of the PDU type.
    InsufficientBits,
    /// The PDU type code names no uplink PDU type.
    InvalidPduType(u64),
    /// An SN-ACTIVATE PDP CONTEXT DEMAND, and what decoding it gave.
    ActivatePdpContextDemand(Result<SNActivatePdpContextDemand, PduParseErr>),
    /// A PDU of a type that is not handled.
    Unsupported(SNPDUType),
}

/// The base station's SNDCP entity.
pub struct Sndcp {}

impl Sndcp {
    pub fn new() -> (res: Sndcp) {
        Sndcp {}
    }

    /// What receiving `sdu` (an uplink SDU, positioned at the PDU type) gives,
    /// and where decoding leaves the SDU's position.
    pub open spec fn spec_rx(sdu: BitBuffer) -> (SndcpRxOutcome, nat) {
        if !sdu.has_bits(4) {
            (SndcpRxOutcome::InsufficientBits, sdu.spec_pos())
        } else {
            let code = bits_to_nat(sdu.upcoming(4)) as u64;
            match SNPDUType::spec_from_raw(code, Direction::Ul) {
                Err(_) => (SndcpRxOutcome::InvalidPduType(code), sdu.spec_pos()),
                Ok(SNPDUType::ActivatePdpContextDemand) => {
                    let (r, p) = SNActivatePdpContextDemand::spec_parse(sdu.spec_bits(), sdu.spec_pos());
                    (SndcpRxOutcome::ActivatePdpContextDemand(r), p)
                },
                Ok(t) => (SndcpRxOutcome::Unsupported(t), sdu.spec_pos()),
            }
        }
    }

    /// Receives an SDU from the LTPD SAP: reads the PDU type without moving,
    /// and decodes the PDUs of the handled types.
    pub fn rx_sdu(&mut self, sdu: &mut BitBuffer) -> (res: SndcpRxOutcome)
        ensures
            final(sdu).spec_bits() == old(sdu).spec_bits(),
            (res, final(sdu).spec_pos()) == Sndcp::spec_rx(*old(sdu)),
    {
        let bits = match sdu.peek_bits(4) {
            Some(b) => b,
            None => return SndcpRxOutcome::InsufficientBits,
        };
        let pdu_type = match SNPDUType::from_raw(bits, Direction::Ul) {
            Ok(t) => t,
            Err(_) => return SndcpRxOutcome::InvalidPduType(bits),
        };
        match pdu_type {
            SNPDUType::ActivatePdpContextDemand => {
                let pdu = SNActivatePdpContextDemand::from_bitbuf(sdu, Direction::Ul);
                SndcpRxOutcome::ActivatePdpContextDemand(pdu)
            },
            _ => SndcpRxOutcome::Unsupported(pdu_type),
        }
    }
}

} // verus!
