//! Failure kinds of one device's poll cycle.

use vstd::prelude::*;

verus! {

/// Why a poll cycle, or the decoding of one exchange, did not succeed.
///
/// A read that times out is not among them: it yields an empty or truncated
/// response, which decoding then judges.
#[derive(Clone, Copy, Debug, PartialEq, Eq, Structural)]
pub enum PollError {
    /// The serial port could not be opened.
    TransportOpenError,
    /// The port was opened but line settings or timeout could not be applied.
    TransportConfigureError,
    /// The request was not written in full.
    TransportWriteError,
    /// The request is not a whole frame whose trailing checksum matches.
    ChecksumMismatch,
    /// The response is too short for the request it answers.
    MalformedResponse,
    /// The transport reported something other than the answer to the action
    /// that was in flight.
    UnexpectedEvent,
}

} // verus!
