//! The fixed control-plane address map and the transport constants.
//!
//! Words are 16 bits. Holding registers are read/write, input registers
//! read-only, coils single bits, per conventional fieldbus semantics.

use vstd::prelude::*;

verus! {

/// TCP port of the control-plane (register) transport.
pub const CONTROL_PORT: u16 = 502;

/// TCP port of the dedicated firmware-update (block transfer) channel.
pub const UPDATE_PORT: u16 = 21830;

/// Node/slave id the gateway answers on.
pub const UNIT_ID: u8 = 1;

/// Holding register: device identity magic.
pub const IDENTITY_ADDRESS: u16 = 0;

/// Holding registers: hardware version (major, minor, patch).
pub const HARDWARE_VERSION_ADDRESS: u16 = 1;

/// Holding registers: firmware version (major, minor, patch).
pub const FIRMWARE_VERSION_ADDRESS: u16 = 4;

/// Holding registers: serial number (year/week packed, sequence).
pub const SERIAL_ADDRESS: u16 = 7;

/// Coil: restart trigger (write true).
pub const RESTART_COIL: u16 = 1;

/// Coil: factory-reset trigger (write true).
pub const RESET_COIL: u16 = 2;

/// Coil: DHCP enable.
pub const DHCP_COIL: u16 = 1001;

/// Input/holding registers: static IPv4 address, one octet per register.
pub const IPV4_ADDRESS: u16 = 1001;

/// Holding register: nominal bus bitrate divided by 100.
pub const BITRATE_NOMINAL_ADDRESS: u16 = 2001;

/// Holding register: data bus bitrate divided by 100.
///
/// Observed device revisions expose the data rate at the same address
/// as the nominal rate. That collision looks like a defect in the
/// device's register map; both named operations are kept, and nothing
/// here "fixes" the address silently.
pub const BITRATE_DATA_ADDRESS: u16 = 2001;

/// Input register: bus receive error count.
pub const RX_ERROR_COUNT_ADDRESS: u16 = 2001;

/// Input register: bus transmit error count.
pub const TX_ERROR_COUNT_ADDRESS: u16 = 2002;

} // verus!
