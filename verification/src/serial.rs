//! Serial numbers: two consecutive holding registers, the first packing
//! a two-digit year (high byte) and a week of year (low byte), the
//! second a 16-bit sequence counter. Rendered as `YYWW-SEQHEX`.
//!
//! Year and week are plain bytes here; they are not calendar-validated
//! by this layer.

use crate::digits::{push_hex4, push_pad2, spec_hex4, spec_pad2};
use vstd::prelude::*;
use vstd::string::StringExecFns;

verus! {

/// A device serial number.
#[derive(Debug, Clone, Copy, PartialEq, Eq, Structural)]
pub struct Serial {
    /// Two-digit year of manufacture.
    pub year: u8,
    /// Week of year of manufacture.
    pub week: u8,
    /// Sequence counter.
    pub seq: u16,
}

/// The serial held in its two consecutive registers: the first word's
/// high byte is the year and its low byte the week; the second word is
/// the sequence counter.
pub open spec fn spec_decode_serial(regs: Seq<u16>) -> Serial {
    Serial { year: (regs[0] / 256) as u8, week: (regs[0] % 256) as u8, seq: regs[1] }
}

/// The rendering `YYWW-SEQHEX`: year and week as two-digit zero-padded
/// decimal, then the sequence as four uppercase hexadecimal digits.
pub open spec fn spec_serial_text(s: Serial) -> Seq<char> {
    spec_pad2(s.year as nat) + spec_pad2(s.week as nat) + seq!['-'] + spec_hex4(s.seq as nat)
}

impl Serial {
    /// Decodes the two consecutive registers of the serial range.
    pub fn decode(regs: &Vec<u16>) -> (r: Serial)
        requires
            regs@.len() == 2,
        ensures
            r == spec_decode_serial(regs@),
    {
        Serial { year: (regs[0] / 256) as u8, week: (regs[0] % 256) as u8, seq: regs[1] }
    }

    /// Renders the serial as `YYWW-SEQHEX`.
    pub fn to_text(&self) -> (r: String)
        ensures
            r@ == spec_serial_text(*self),
    {
        proof {
            reveal_strlit("-");
        }
        let mut s = String::new();
        push_pad2(&mut s, self.year);
        push_pad2(&mut s, self.week);
        s.append("-");
        push_hex4(&mut s, self.seq);
        proof {
            assert(s@ =~= spec_serial_text(*self));
        }
        s
    }
}

} // verus!
