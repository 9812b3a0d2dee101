//! The steps by which the socket transport is started.
//!
//! The listener is bound to the configured address; if that succeeds the
//! server is started on the method registry, and if it fails the start is
//! over, with the failure as its error. Nothing is tried twice.

use crate::config::{SocketAddress, WebSocketConfig};
use crate::error::TransportError;
use vstd::prelude::*;

verus! {

/// What the start of the socket transport is waiting for.
#[derive(Debug, Clone, Copy, PartialEq, Eq, Structural)]
pub enum SocketStartPhase {
    /// The listener is being bound.
    Binding,
    /// The listener is bound and the server is to be started on it.
    Starting,
    /// The start has failed.
    Failed,
}

/// The state of one start of the socket transport.
#[derive(Debug, Clone, Copy, PartialEq, Eq, Structural)]
pub struct SocketStartup {
    pub phase: SocketStartPhase,
}

/// What the driver reports back.
#[derive(Debug)]
pub enum SocketStartEvent {
    /// The listener was bound, or the text of why it could not be.
    Bound(Result<(), String>),
}

/// What the driver is to do next.
#[derive(Debug)]
pub enum SocketStartAction {
    /// Bind a listener to this address.
    Bind(SocketAddress),
    /// Start the server on the registry, and hand its handle back.
    Start,
    /// Give up with this error.
    Fail(TransportError),
    /// The event did not answer the outstanding action; nothing has changed.
    Unexpected,
}

impl SocketStartup {
    /// The state and action that follow `event`.
    pub open spec fn spec_step(self, event: SocketStartEvent) -> (
        SocketStartup,
        SocketStartAction,
    ) {
        match (self.phase, event) {
            (SocketStartPhase::Binding, SocketStartEvent::Bound(Ok(_))) => (
                SocketStartup { phase: SocketStartPhase::Starting },
                SocketStartAction::Start,
            ),
            (SocketStartPhase::Binding, SocketStartEvent::Bound(Err(text))) => (
                SocketStartup { phase: SocketStartPhase::Failed },
                SocketStartAction::Fail(TransportError::Bind(text)),
            ),
            _ => (self, SocketStartAction::Unexpected),
        }
    }

    /// Takes the driver's answer to the outstanding action and names the
    /// next one.
    pub fn step(self, event: SocketStartEvent) -> (next: (SocketStartup, SocketStartAction))
        ensures
            next == self.spec_step(event),
    {
        match (self.phase, event) {
            (SocketStartPhase::Binding, SocketStartEvent::Bound(Ok(_))) => (
                SocketStartup { phase: SocketStartPhase::Starting },
                SocketStartAction::Start,
            ),
            (SocketStartPhase::Binding, SocketStartEvent::Bound(Err(text))) => (
                SocketStartup { phase: SocketStartPhase::Failed },
                SocketStartAction::Fail(TransportError::Bind(text)),
            ),
            _ => (self, SocketStartAction::Unexpected),
        }
    }
}

/// Begins the start of the socket transport: the listener is to be bound to
/// the configured address.
pub fn serve_websocket(config: WebSocketConfig) -> (next: (SocketStartup, SocketStartAction))
    ensures
        next.0 == (SocketStartup { phase: SocketStartPhase::Binding }),
        next.1 == SocketStartAction::Bind(config.addr),
{
    (SocketStartup { phase: SocketStartPhase::Binding }, SocketStartAction::Bind(config.addr))
}

} // verus!
