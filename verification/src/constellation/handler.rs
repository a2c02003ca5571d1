//! The caller-supplied handler surface of the live-event subsystem.

use vstd::prelude::*;

verus! {

/// What a callback asks the subscription session to do next.
#[derive(Debug)]
pub enum ConstellationResult {
    Nothing,
    Error(String),
    Message(String),
}

/// Handle lifecycle events of the live-event socket. Every capability
/// defaults to doing nothing.
pub trait ConstellationHandler {
    /// Fired when the socket has connected.
    fn on_connect(&mut self) -> ConstellationResult {
        ConstellationResult::Nothing
    }

    /// Fired when the socket is closed.
    fn on_disconnect(&mut self) -> ConstellationResult {
        ConstellationResult::Nothing
    }

    /// Fired when the socket is reconnected after a disconnection.
    fn on_reconnect(&mut self) -> ConstellationResult {
        ConstellationResult::Nothing
    }
}

} // verus!
