//! The connection lifecycle: the four states a connection moves through and
//! the pure transition function the engine loop follows.

use vstd::prelude::*;

use crate::asdu::Asdu;

verus! {

/// Where a connection stands in its life.
#[derive(Debug, Copy, Clone, Eq, PartialEq, Structural)]
pub enum ConnectionHandlerState {
    /// Connected, waiting for a start command.
    WaitingForStart,
    /// Negotiating the start of data transfer.
    Starting,
    /// Transferring data.
    Started,
    /// The transport failed; trying to connect again.
    Reconnecting,
}

/// What a user can ask the engine to do.
#[derive(Debug, Clone, PartialEq)]
pub enum ConnectionHandlerCommand {
    /// Begin data transfer.
    Start,
    /// End data transfer.
    Stop,
    /// Inject a test frame.
    Test,
    /// Queue an ASDU for sending.
    Asdu(Asdu),
}

/// What happened to the connection since the last lifecycle decision.
#[derive(Debug, Copy, Clone, Eq, PartialEq, Structural)]
pub enum LifecycleEvent {
    /// A start command arrived.
    CommandStart,
    /// Any other command arrived while waiting.
    CommandOther,
    /// The start negotiation succeeded.
    StartConfirmed,
    /// The start negotiation timed out or the transport failed.
    StartFailed,
    /// The data phase ended with an orderly stop.
    SessionStopped,
    /// The data phase ended with a fatal error.
    SessionFailed,
    /// A new transport connection was established.
    ConnectSucceeded,
    /// A connection attempt failed; retry after the reconnect period.
    ConnectFailed,
}

/// The lifecycle transition function: where the connection goes on each
/// event. Waiting moves to starting only on a start command; starting moves
/// to started on confirmation and to reconnecting on failure; the data
/// phase falls back to waiting on an orderly stop and to reconnecting on a
/// fatal error; reconnecting returns to starting once a transport is up.
pub fn lifecycle_step(state: ConnectionHandlerState, event: LifecycleEvent) -> (r:
    ConnectionHandlerState)
    ensures
        state == ConnectionHandlerState::WaitingForStart && event == LifecycleEvent::CommandStart
            ==> r == ConnectionHandlerState::Starting,
        state == ConnectionHandlerState::WaitingForStart && event != LifecycleEvent::CommandStart
            ==> r == ConnectionHandlerState::WaitingForStart,
        state == ConnectionHandlerState::Starting ==> r == (if event
            == LifecycleEvent::StartConfirmed {
            ConnectionHandlerState::Started
        } else if event == LifecycleEvent::StartFailed {
            ConnectionHandlerState::Reconnecting
        } else {
            ConnectionHandlerState::Starting
        }),
        state == ConnectionHandlerState::Started ==> r == (if event
            == LifecycleEvent::SessionStopped {
            ConnectionHandlerState::WaitingForStart
        } else if event == LifecycleEvent::SessionFailed {
            ConnectionHandlerState::Reconnecting
        } else {
            ConnectionHandlerState::Started
        }),
        state == ConnectionHandlerState::Reconnecting ==> r == (if event
            == LifecycleEvent::ConnectSucceeded {
            ConnectionHandlerState::Starting
        } else {
            ConnectionHandlerState::Reconnecting
        }),
{
    match state {
        ConnectionHandlerState::WaitingForStart => match event {
            LifecycleEvent::CommandStart => ConnectionHandlerState::Starting,
            _ => ConnectionHandlerState::WaitingForStart,
        },
        ConnectionHandlerState::Starting => match event {
            LifecycleEvent::StartConfirmed => ConnectionHandlerState::Started,
            LifecycleEvent::StartFailed => ConnectionHandlerState::Reconnecting,
            _ => ConnectionHandlerState::Starting,
        },
        ConnectionHandlerState::Started => match event {
            LifecycleEvent::SessionStopped => ConnectionHandlerState::WaitingForStart,
            LifecycleEvent::SessionFailed => ConnectionHandlerState::Reconnecting,
            _ => ConnectionHandlerState::Started,
        },
        ConnectionHandlerState::Reconnecting => match event {
            LifecycleEvent::ConnectSucceeded => ConnectionHandlerState::Starting,
            _ => ConnectionHandlerState::Reconnecting,
        },
    }
}

} // verus!
