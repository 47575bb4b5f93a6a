//! Telemetry link and orientation estimator for an inertial sensor unit.
//!
//! Sensor values travel as IEEE-754 single-precision numbers; this library
//! carries them as their raw bit patterns (`u32`) so that every decision it
//! makes about framing, calibration and blending is checked exactly.

pub mod estimator;
pub mod framing;
pub mod link;
pub mod mailbox;
pub mod remap;
pub mod wire;
