//! Telemetry for a battery-management unit: reassembly of notification fragments into
//! fixed-length frames, decoding of a frame into the state of the pack, and the
//! resolution of alarm codes. Readings are kept as the integers the unit sends.

pub mod alarm;
pub mod bytes;
pub mod command;
pub mod layout;
pub mod packet;
pub mod sync;
