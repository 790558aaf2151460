//! Classification of the transport's signed return codes.
//!
//! The numeric codes are vendor-opaque and matched empirically; the table is
//! preserved verbatim without inferring their meanings. Codes 12428, 19448,
//! 29843 and 39293 have been observed alongside successful transmission and
//! are treated, like every other positive code, as informational. The loop,
//! not the classifier, performs the peer-liveness check that turns an
//! unknown positive code into a fatal outcome.

use vstd::prelude::*;

verus! {

/// Outcome of one frame submission, as judged from the return code alone.
#[derive(Clone, Copy, Debug, PartialEq, Eq, Structural)]
pub enum Outcome {
    /// rc == 0: the frame was accepted.
    Success,
    /// rc == 26984: transient backpressure; retry the same frame after a
    /// short sleep without advancing the timestamp.
    TransientBackpressure,
    /// Any other rc > 0: the frame is considered delivered.
    InformationalStatus,
    /// rc < 0: the session ends.
    Fatal,
}

/// The classification table as a mathematical function of the code.
pub open spec fn classify_spec(rc: int) -> Outcome {
    if rc == 0 {
        Outcome::Success
    } else if rc == 26984 {
        Outcome::TransientBackpressure
    } else if rc > 0 {
        Outcome::InformationalStatus
    } else {
        Outcome::Fatal
    }
}

/// Map a transport return code to an outcome. Pure: no side effects, and
/// independent of any session state.
pub fn interpret_return_code(rc: i32) -> (r: Outcome)
    ensures
        r == classify_spec(rc as int),
{
    match rc {
        0 => Outcome::Success,
        26984 => Outcome::TransientBackpressure,
        12428 | 19448 | 29843 | 39293 => Outcome::InformationalStatus,
        _ if rc > 0 => Outcome::InformationalStatus,
        _ => Outcome::Fatal,
    }
}

} // verus!
