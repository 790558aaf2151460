//! Verified core of a synthetic-video send harness.
//!
//! The library holds the logic that drives a native media-transport session:
//! deterministic test-pattern generation for three pixel layouts, a pacing
//! clock with drift recovery, a return-code classifier, a session driver
//! expressed as a state machine over transport events, a test-case runner
//! plan, and a log-line scanner. All I/O, sleeping and the transport calls
//! themselves live outside the library; the library decides, the harness acts.

pub mod classify;
pub mod format;
pub mod logscan;
pub mod pacing;
pub mod pattern;
pub mod runner;
pub mod sender;
pub mod session;

use vstd::prelude::*;

verus! {

/// Errors surfaced by the core.
#[derive(Clone, Copy, Debug, PartialEq, Eq, Structural)]
pub enum CoreError {
    /// The transport returned a null handle on session creation.
    SessionCreateFailed,
    /// The classifier judged a submission return code fatal (non-peer-loss).
    SubmissionFatal { rc: i32 },
    /// The pattern generator was asked for an encoding it does not know.
    UnsupportedEncoding,
    /// The pattern generator was asked for dimensions that break the
    /// parity invariants of the requested encoding.
    InvalidDimensions,
}

} // verus!
