//! The errors of the link layer.

use vstd::prelude::*;

verus! {

/// Why a user-facing call on the client failed.
#[derive(Debug, Copy, Clone, Eq, PartialEq, Structural)]
pub enum LinkError {
    /// The client has no connection yet.
    NotConnected,
    /// The client is between connections.
    Reconnecting,
    /// The connection is not in the started state.
    NotReceiving,
    /// A command could not be queued to the engine.
    SendCommand,
    /// The data transfer was already started.
    AlreadyStarted,
    /// As many frames are unacknowledged as the window allows.
    OutputBufferFull,
    /// The command channel is gone.
    NoWriteChannel,
}

/// Why the session engine declared the connection dead.
#[derive(Debug, Copy, Clone, Eq, PartialEq, Structural)]
pub enum SessionError {
    /// An incoming I-frame did not carry the expected send sequence number.
    SequenceNumberMismatch,
    /// An acknowledgement fell outside the window of sent frames.
    AckNotInWindow,
    /// The window of sent frames is full.
    OutputBufferFull,
    /// Too many test activations went unanswered.
    TooManyTestFrames,
    /// An acknowledgement deadline passed with frames still pending.
    AcknowledgementTimeout,
    /// A start activation arrived at a client, which never serves one.
    UnexpectedStartActivation,
}

} // verus!
