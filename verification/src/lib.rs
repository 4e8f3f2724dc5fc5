//! Host-side control library for Moondrop USB audio dongles.
//!
//! The dongles speak a vendor-specific control-transfer protocol: every
//! operation is a fixed three-byte command header, optionally followed by a
//! single payload byte, and every query is answered with a fixed seven-byte
//! response buffer. This crate holds the verified core of that protocol:
//! the byte codecs for the device's enumerated settings, the volume scaling
//! math, the command catalog, response parsing, and the device-selection
//! rules for broadcasting commands to every attached dongle. The physical
//! USB transfers themselves are left to the caller.

pub mod commands;
pub mod filter;
pub mod gain;
pub mod indicator_state;
pub mod usb;
pub mod volume_level;
