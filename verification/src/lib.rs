//! A configurable interpreter core for the CHIP-8 family of virtual machines.
//!
//! The crate holds the instruction decoder, the compatibility (quirk)
//! configuration, the two-plane display engine and the execution engine.
//! Windowing, key mapping, program loading and frame pacing belong to the host.

pub mod emulator;
