//! Fieldbus segment configuration: nominal and data bit rates, each
//! stored in a single register scaled by 100 (register value times 100
//! is the rate in bits per second).
//!
//! The codec here performs no semantic validation; the allowed range is
//! enforced by the configuration layer before any write is planned.

use vstd::prelude::*;

verus! {

/// Lowest bit rate the configuration layer accepts, in bits per second.
pub const BITRATE_MIN: u32 = 10_000;

/// Highest bit rate the configuration layer accepts, in bits per second.
pub const BITRATE_MAX: u32 = 5_000_000;

/// The rate, in bits per second, held in a bitrate register.
pub open spec fn spec_decode_bitrate(reg: u16) -> u32 {
    (reg * 100) as u32
}

/// The register word that encodes a rate given in bits per second.
pub open spec fn spec_encode_bitrate(rate: u32) -> u16 {
    (rate / 100) as u16
}

/// Decodes a bitrate register into bits per second.
pub fn decode_bitrate(reg: u16) -> (r: u32)
    ensures
        r == spec_decode_bitrate(reg),
{
    reg as u32 * 100
}

/// Encodes a rate in bits per second as its register word.
pub fn encode_bitrate(rate: u32) -> (r: u16)
    requires
        rate / 100 <= u16::MAX,
    ensures
        r == spec_encode_bitrate(rate),
{
    (rate / 100) as u16
}

/// Encoding then decoding is the identity for every rate that is a
/// multiple of 100 within the accepted range: the scaled register
/// round-trips such rates exactly.
pub proof fn lemma_bitrate_roundtrip(rate: u32)
    requires
        rate % 100 == 0,
        BITRATE_MIN <= rate <= BITRATE_MAX,
    ensures
        spec_decode_bitrate(spec_encode_bitrate(rate)) == rate,
{
    assert(rate / 100 * 100 == rate) by (nonlinear_arith)
        requires
            rate % 100 == 0,
    ;
}

} // verus!
