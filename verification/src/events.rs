//! Events exchanged between the reactor core and its driver, and the poller
//! effects the core asks for in return.

use vstd::prelude::*;

verus! {

/// Readiness interest to hold with the polling facility for one socket.
#[derive(Clone, Copy, PartialEq, Eq, Structural, Debug)]
pub enum Interest {
    /// Notify when the socket can be read without blocking.
    Readable,
    /// Notify when the socket can be written without blocking.
    Writable,
    /// Notify on either readiness.
    Both,
}

/// How a non-blocking read drain on one connection ended.
#[derive(Clone, Copy, PartialEq, Eq, Structural, Debug)]
pub enum ReadEnd {
    /// No more bytes are available right now; an expected outcome, not an error.
    WouldBlock,
    /// The peer closed the stream: a read returned zero bytes.
    Closed,
    /// A genuine I/O error, anything other than "would block".
    Failed,
}

/// The poller action a dispatch step asks the driver to perform.
#[derive(Clone, Copy, PartialEq, Eq, Structural, Debug)]
pub enum Effect {
    /// Register the connection's socket with the poller, one-shot and
    /// edge-triggered, under the given identifier with the given interest.
    Register { token: u64, interest: Interest },
    /// Re-arm the one-shot registration of an already-registered socket with
    /// the given interest.
    Reregister { token: u64, interest: Interest },
    /// Remove the socket from the poller and drop it.
    Deregister { token: u64 },
    /// No poller action is needed.
    Idle,
}

} // verus!
