//! What can end a turn early.

use vstd::prelude::*;

verus! {

/// Why a turn was aborted. Each one is fatal to the turn in flight only; the
/// transcript of earlier turns stays valid.
#[derive(Debug, Clone, Copy, PartialEq, Eq, Structural)]
pub enum StreamError {
    /// The connection failed or a read from it failed.
    Transport,
    /// A received line is not valid UTF-8.
    Encoding,
    /// A payload line does not decode into a completion delta, or its choice
    /// list is empty.
    ProtocolDecode,
    /// The byte stream ended before the sentinel line.
    Incomplete,
}

} // verus!
