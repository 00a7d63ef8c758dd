//! The failures that the monitoring pipeline distinguishes.

use vstd::prelude::*;

verus! {

/// Why a step of the pipeline failed.
#[derive(Clone, Copy, Debug, PartialEq, Eq, Structural)]
pub enum MonitorError {
    /// The call did not reach the node, or no answer came back.
    Transport,
    /// The answer is not a valid reply to the call that was made.
    Protocol,
    /// A field of the answer does not hold the text that it must hold.
    Decoding,
}

} // verus!
