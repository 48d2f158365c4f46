//! Network configuration: the DHCP-enable coil and the static IPv4
//! address packed across four consecutive registers.
//!
//! The address packing is a device quirk kept exactly for wire
//! compatibility: one octet per 16-bit register, in the register's low
//! byte, not the conventional two octets per register. On decode the
//! high byte is ignored, as the device leaves it unused.

use crate::digits::{push_dec, spec_dec};
use vstd::prelude::*;
use vstd::string::StringExecFns;

verus! {

/// A static IPv4 address as its four dotted-quad octets.
#[derive(Debug, Clone, Copy, PartialEq, Eq, Structural)]
pub struct Ipv4Address {
    pub o0: u8,
    pub o1: u8,
    pub o2: u8,
    pub o3: u8,
}

/// The address held in its four consecutive registers, one octet in
/// each register's low byte.
pub open spec fn spec_decode_ipv4(regs: Seq<u16>) -> Ipv4Address {
    Ipv4Address {
        o0: (regs[0] % 256) as u8,
        o1: (regs[1] % 256) as u8,
        o2: (regs[2] % 256) as u8,
        o3: (regs[3] % 256) as u8,
    }
}

/// The four register words that encode an address, one octet each.
pub open spec fn spec_encode_ipv4(ip: Ipv4Address) -> Seq<u16> {
    seq![ip.o0 as u16, ip.o1 as u16, ip.o2 as u16, ip.o3 as u16]
}

/// The dotted-quad rendering `A.B.C.D`.
pub open spec fn spec_ipv4_text(ip: Ipv4Address) -> Seq<char> {
    spec_dec(ip.o0 as nat) + seq!['.'] + spec_dec(ip.o1 as nat) + seq!['.'] + spec_dec(
        ip.o2 as nat,
    ) + seq!['.'] + spec_dec(ip.o3 as nat)
}

impl Ipv4Address {
    /// Builds the address from its four dotted-quad octets.
    pub fn new(o0: u8, o1: u8, o2: u8, o3: u8) -> (r: Ipv4Address)
        ensures
            r == (Ipv4Address { o0, o1, o2, o3 }),
    {
        Ipv4Address { o0, o1, o2, o3 }
    }

    /// Decodes the four consecutive registers of the address range,
    /// taking each register's low byte.
    pub fn decode(regs: &Vec<u16>) -> (r: Ipv4Address)
        requires
            regs@.len() == 4,
        ensures
            r == spec_decode_ipv4(regs@),
    {
        Ipv4Address {
            o0: (regs[0] % 256) as u8,
            o1: (regs[1] % 256) as u8,
            o2: (regs[2] % 256) as u8,
            o3: (regs[3] % 256) as u8,
        }
    }

    /// Encodes the address as the four register words of its range.
    pub fn encode(&self) -> (r: Vec<u16>)
        ensures
            r@ == spec_encode_ipv4(*self),
    {
        let mut regs: Vec<u16> = Vec::new();
        regs.push(self.o0 as u16);
        regs.push(self.o1 as u16);
        regs.push(self.o2 as u16);
        regs.push(self.o3 as u16);
        proof {
            assert(regs@ =~= spec_encode_ipv4(*self));
        }
        regs
    }

    /// Renders the address in dotted-quad form.
    pub fn to_text(&self) -> (r: String)
        ensures
            r@ == spec_ipv4_text(*self),
    {
        proof {
            reveal_strlit(".");
        }
        let mut s = String::new();
        push_dec(&mut s, self.o0 as u16);
        s.append(".");
        push_dec(&mut s, self.o1 as u16);
        s.append(".");
        push_dec(&mut s, self.o2 as u16);
        s.append(".");
        push_dec(&mut s, self.o3 as u16);
        proof {
            assert(s@ =~= spec_ipv4_text(*self));
        }
        s
    }
}

/// Writing an address and reading the same registers back gives the
/// original address, for every IPv4 address: the octet-per-register
/// packing round-trips.
pub proof fn lemma_ipv4_roundtrip(ip: Ipv4Address)
    ensures
        spec_decode_ipv4(spec_encode_ipv4(ip)) == ip,
{
}

} // verus!
