//! Core of an AUR helper: the shared operation state observed by a caller
//! while a background worker runs a multi-stage install (or a single-step
//! uninstall), plus the orchestration state machine that sequences the
//! stages and publishes progress, errors and log lines.
//!
//! All network, subprocess and filesystem work is performed by the caller,
//! which feeds the outcomes back into the state machine as plain values.

pub mod errors;
pub mod state;
pub mod textutil;
pub mod pipeline;
pub mod laws;
pub mod deps;
