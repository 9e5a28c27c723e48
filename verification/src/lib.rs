//! Control core of a realtime audio processing engine.
//!
//! The engine moves audio through three worker stages (capture, processing,
//! playback) joined by bounded queues, under a supervisor that synchronises
//! startup, routes status messages, and applies live configuration changes.
//! This crate holds the decision logic of that core: the supervisor state
//! machine, the configuration-diff classification that separates in-place
//! parameter changes from changes that force a restart, and the loudness
//! filter's volume-ramp control.  All level values are carried as integer
//! milli-decibels, so every decision is exact; turning a decided gain into
//! sample amplitudes is left to the unverified shell around the crate.

use vstd::prelude::*;

pub mod config;
pub mod loudness;
pub mod supervisor;

verus! {

/// Process exit code for a normal shutdown.
pub const EXIT_OK: i32 = 0;

/// Process exit code when the configuration file is invalid.
pub const EXIT_BAD_CONFIG: i32 = 101;

/// Process exit code when a run ended with a processing error and no new
/// configuration is awaited.
pub const EXIT_PROCESSING_ERROR: i32 = 102;

} // verus!
