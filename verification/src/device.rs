//! Device identity: the magic number read from the identity register and
//! its classification into the known gateway variants.

use vstd::prelude::*;

verus! {

/// Identity magic of the CAN-FD gateway variant ("FD" as big-endian ASCII).
pub const CANFD_IDENTIFIER: u16 = 0x4644;

/// Identity magic of the serial (RS-232/RS-485) gateway variant ("RS").
pub const SERIAL_IDENTIFIER: u16 = 0x5253;

/// Magic numbers used to identify Gateway types.
/// Must be u16 to fit in one holding register.
///
/// Any code other than the two known magics is a valid but unrecognized
/// variant, never an error: newer devices may report identities this
/// build does not know yet.
#[derive(Debug, Clone, Copy, PartialEq, Eq, Structural)]
pub enum DeviceIdentifier {
    /// "FD" like CAN FD
    CanFd,
    /// "RS" like RS-232/RS-485
    Serial,
    /// Unknown but possibly valid identifier.
    Unknown(u16),
}

/// Classification of a raw identity register value.
pub open spec fn spec_classify(code: u16) -> DeviceIdentifier {
    if code == CANFD_IDENTIFIER {
        DeviceIdentifier::CanFd
    } else if code == SERIAL_IDENTIFIER {
        DeviceIdentifier::Serial
    } else {
        DeviceIdentifier::Unknown(code)
    }
}

impl From<u16> for DeviceIdentifier {
    fn from(code: u16) -> (r: DeviceIdentifier) {
        if code == CANFD_IDENTIFIER {
            DeviceIdentifier::CanFd
        } else if code == SERIAL_IDENTIFIER {
            DeviceIdentifier::Serial
        } else {
            DeviceIdentifier::Unknown(code)
        }
    }
}

impl vstd::std_specs::convert::FromSpecImpl<u16> for DeviceIdentifier {
    open spec fn obeys_from_spec() -> bool {
        true
    }

    open spec fn from_spec(code: u16) -> DeviceIdentifier {
        spec_classify(code)
    }
}

impl DeviceIdentifier {
    /// The register value that names this variant, where one is known.
    pub fn code(&self) -> (r: Option<u16>)
        ensures
            r == match *self {
                DeviceIdentifier::CanFd => Some(CANFD_IDENTIFIER),
                DeviceIdentifier::Serial => Some(SERIAL_IDENTIFIER),
                DeviceIdentifier::Unknown(_) => None::<u16>,
            },
    {
        match *self {
            DeviceIdentifier::CanFd => Some(CANFD_IDENTIFIER),
            DeviceIdentifier::Serial => Some(SERIAL_IDENTIFIER),
            DeviceIdentifier::Unknown(_) => None,
        }
    }
}

} // verus!
