//! The errors a caller can see. Everything synchronously detectable comes
//! back to the immediate caller; a worker fault is never an error value,
//! only a status the cell publishes.

use vstd::prelude::*;

verus! {

/// Why a submission or shutdown request was refused, synchronously.
#[derive(Clone, Copy, Debug, PartialEq, Eq, Structural)]
pub enum Error {
    /// The caller-supplied message is malformed and never reached the
    /// command channel.
    Validation,
    /// The worker has already exited, so the command channel is closed; the
    /// command was not enqueued and is not recoverable.
    ChannelClosed,
}

} // verus!
