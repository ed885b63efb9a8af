//! Test-vector protocol for exercising a device's Ethernet data path.
//!
//! The library holds the parts with real correctness obligations: the
//! fixed-layout big-endian encoding of test parameters for the control
//! channel, the deterministic expected-sequence generator, the byte-exact
//! verification engine that turns a received buffer into a verdict with a
//! localized diagnostic, and the per-repetition state machine that a driver
//! steps through. Channel I/O, argument handling and colored output live in
//! the surrounding application.

pub mod params;
pub mod runner;
pub mod test_case;
pub mod text;
pub mod verdict;
