//! Configuration decisions: parsing enable/disable words and planning
//! bus-bitrate writes.
//!
//! The range check on bitrates lives here, not in the register codec:
//! a rate outside the accepted range is rejected before any register
//! write is planned.

use crate::bus::{encode_bitrate, spec_encode_bitrate, BITRATE_MAX, BITRATE_MIN};
use crate::strutil::str_eq;
use vstd::prelude::*;

verus! {

/// Rejection of a requested bus-bitrate change, raised before any
/// register write.
#[derive(Debug, Clone, Copy, PartialEq, Eq, Structural)]
pub enum ConfigError {
    NominalTooLow,
    NominalTooHigh,
    DataTooLow,
    DataTooHigh,
}

/// The two register words of an accepted bitrate change: the nominal
/// and the data rate registers, each scaled down by 100.
#[derive(Debug, Clone, Copy, PartialEq, Eq, Structural)]
pub struct BitrateWrite {
    pub nominal: u16,
    pub data: u16,
}

/// A more general reading of boolean words: "enable", "on" and "true"
/// affirm, "disable", "off" and "false" deny, anything else is not a
/// boolean word.
pub open spec fn spec_parse_enable(s: Seq<char>) -> Option<bool> {
    if s == "enable"@ || s == "true"@ || s == "on"@ {
        Some(true)
    } else if s == "disable"@ || s == "false"@ || s == "off"@ {
        Some(false)
    } else {
        None
    }
}

/// Parses boolean words such as "enable", "disable", "on" and "off" as
/// well as "true" and "false".
pub fn parse_enable(arg: &str) -> (r: Option<bool>)
    ensures
        r == spec_parse_enable(arg@),
{
    if str_eq(arg, "enable") || str_eq(arg, "true") || str_eq(arg, "on") {
        Some(true)
    } else if str_eq(arg, "disable") || str_eq(arg, "false") || str_eq(arg, "off") {
        Some(false)
    } else {
        None
    }
}

/// The decision on a requested bitrate change: the data rate defaults
/// to the nominal rate when not given; each rate must lie within the
/// accepted range or the whole request is rejected; an accepted request
/// yields the two scaled register words.
pub open spec fn spec_plan_can_bitrate(nominal: u32, data: Option<u32>) -> Result<
    BitrateWrite,
    ConfigError,
> {
    let d = if data is Some {
        data->0
    } else {
        nominal
    };
    if nominal < BITRATE_MIN {
        Err(ConfigError::NominalTooLow)
    } else if nominal > BITRATE_MAX {
        Err(ConfigError::NominalTooHigh)
    } else if d < BITRATE_MIN {
        Err(ConfigError::DataTooLow)
    } else if d > BITRATE_MAX {
        Err(ConfigError::DataTooHigh)
    } else {
        Ok(BitrateWrite { nominal: spec_encode_bitrate(nominal), data: spec_encode_bitrate(d) })
    }
}

/// Plans a bus-bitrate change. The rates are given in bits per second;
/// the data rate falls back to the nominal rate when not specified.
/// Rates outside the accepted range are rejected here, before anything
/// is written.
pub fn plan_can_bitrate(nominal: u32, data: Option<u32>) -> (r: Result<BitrateWrite, ConfigError>)
    ensures
        r == spec_plan_can_bitrate(nominal, data),
{
    let d = match data {
        Some(d) => d,
        None => nominal,
    };
    if nominal < BITRATE_MIN {
        Err(ConfigError::NominalTooLow)
    } else if nominal > BITRATE_MAX {
        Err(ConfigError::NominalTooHigh)
    } else if d < BITRATE_MIN {
        Err(ConfigError::DataTooLow)
    } else if d > BITRATE_MAX {
        Err(ConfigError::DataTooHigh)
    } else {
        Ok(BitrateWrite { nominal: encode_bitrate(nominal), data: encode_bitrate(d) })
    }
}

} // verus!
