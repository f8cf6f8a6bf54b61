use vstd::prelude::*;
use crate::bits::{BitBuffer, spec_read_field, splice_bits, nat_to_bits, bit_of};
use crate::pdu_parse_error::PduParseErr;

verus! {

/// PCOMP negotiation (clause 28.4.5.28): three protocol header compression
/// flags followed by five reserved bits.
#[derive(Debug, Clone, Copy, PartialEq, Eq)]
pub struct PCOMPNegotiation {
    pub vj_tcp_ip_header_compression: bool,
    pub ip_header_compression: bool,
    pub other_header_compression: bool,
}

impl PCOMPNegotiation {
    /// Decoding from position `p0` of `s`: three 1-bit flags, then five
    /// reserved bits that are skipped where they fit and ignored where they
    /// do not. Also gives the position after the element.
    pub open spec fn spec_parse(s: Seq<bool>, p0: nat) -> (Result<PCOMPNegotiation, PduParseErr>, nat) {
        let (r1, p1) = spec_read_field(s, p0, 1, "vj_tcp_ip_header_compression");
        let (r2, p2) = spec_read_field(s, p1, 1, "ip_header_compression");
        let (r3, p3) = spec_read_field(s, p2, 1, "other_header_compression");
        match r1 {
            Err(e) => (Err(e), p1),
            Ok(vj) => match r2 {
                Err(e) => (Err(e), p2),
                Ok(ip) => match r3 {
                    Err(e) => (Err(e), p3),
                    Ok(other) => (
                        Ok(PCOMPNegotiation {
                            vj_tcp_ip_header_compression: vj != 0,
                            ip_header_compression: ip != 0,
                            other_header_compression: other != 0,
                        }),
                        if p3 + 5 <= s.len() { p3 + 5 } else { p3 },
                    ),
                },
            },
        }
    }

    /// The eight bits of the element: the three flags and five zero bits.
    pub open spec fn spec_encode(self) -> Seq<bool> {
        seq![self.vj_tcp_ip_header_compression, self.ip_header_compression, self.other_header_compression]
            + nat_to_bits(0, 5)
    }

    /// Decodes the element from the buffer's position on.
    pub fn from_bitbuf(buf: &mut BitBuffer) -> (res: Result<PCOMPNegotiation, PduParseErr>)
        ensures
            final(buf).spec_bits() == old(buf).spec_bits(),
            (res, final(buf).spec_pos()) == PCOMPNegotiation::spec_parse(old(buf).spec_bits(), old(buf).spec_pos()),
    {
        let vj = match buf.read_field(1, "vj_tcp_ip_header_compression") {
            Ok(v) => v,
            Err(e) => return Err(e),
        };
        let ip = match buf.read_field(1, "ip_header_compression") {
            Ok(v) => v,
            Err(e) => return Err(e),
        };
        let other = match buf.read_field(1, "other_header_compression") {
            Ok(v) => v,
            Err(e) => return Err(e),
        };
        let s = PCOMPNegotiation {
            vj_tcp_ip_header_compression: vj != 0,
            ip_header_compression: ip != 0,
            other_header_compression: other != 0,
        };
        // Skip the reserved bits.
        let _ = buf.read_bits(5);
        Ok(s)
    }

    /// Writes the eight bits of the element at the buffer's position and moves past them.
    pub fn to_bitbuf(&self, buf: &mut BitBuffer)
        requires
            old(buf).has_bits(8),
        ensures
            final(buf).spec_bits() == splice_bits(old(buf).spec_bits(), old(buf).spec_pos(), self.spec_encode()),
            final(buf).spec_pos() == old(buf).spec_pos() + 8,
    {
        let ghost b0 = buf.spec_bits();
        let ghost p0 = buf.spec_pos();
        buf.write_bits(if self.vj_tcp_ip_header_compression { 1 } else { 0 }, 1);
        buf.write_bits(if self.ip_header_compression { 1 } else { 0 }, 1);
        buf.write_bits(if self.other_header_compression { 1 } else { 0 }, 1);
        // Write the reserved bits.
        buf.write_bits(0, 5);
        proof {
            vstd::arithmetic::power2::lemma2_to64();
            assert(bit_of(1, 0));
            assert(!bit_of(0, 0));
            assert(nat_to_bits(1, 1)[0] == bit_of(1, 0));
            assert(nat_to_bits(0, 1)[0] == bit_of(0, 0));
            assert(nat_to_bits(1, 1) =~= seq![true]);
            assert(nat_to_bits(0, 1) =~= seq![false]);
            assert(buf.spec_bits() =~= splice_bits(b0, p0, self.spec_encode()));
        }
    }
}

} // verus!
