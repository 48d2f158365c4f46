//! Management client library for a network-attached industrial gateway.
//!
//! The control plane is a 16-bit register map reached over a fieldbus
//! transport; the data plane is a dedicated TCP channel that streams a
//! block-structured firmware image. This crate holds the verified core:
//! the register-map codecs (versions, serial number, network and bus
//! configuration, device identity), firmware-manifest resolution, and the
//! block-transfer state machine. The transports themselves (fieldbus
//! round trips, TCP, HTTP, file reads) live with the callers; they hand
//! plain values in and take plain values back.

pub mod adapter;
pub mod bus;
pub mod config;
pub mod device;
pub mod digits;
pub mod manifest;
pub mod netcfg;
pub mod regmap;
pub mod serial;
pub mod strutil;
pub mod transfer;
pub mod update;
pub mod version;
