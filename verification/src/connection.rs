//! The decision core of the WebSocket connection wrapper.
//!
//! The platform glue constructs the socket, attaches its listeners and
//! runs the browser event loop; every decision it has to make is a
//! function here. `WebSocketService::connect` maps the construction
//! outcome to the Connecting notification and either a fresh handle or
//! a `CreationError`; `WebSocketTask` records the status each
//! lifecycle event notifies and decides how a failed send is reported.
//! Incoming message payloads are classified in `crate::message`.

use vstd::prelude::*;

verus! {

/// The status of a WebSocket connection. Used for status
/// notifications.
#[derive(Clone, Debug, PartialEq)]
pub enum WebSocketStatus {
    /// Fired when a WebSocket connection has opened.
    Opened,
    /// Fired when a WebSocket connection has closed.
    Closed,
    /// Fired when a WebSocket connection has failed, with its detail.
    Error(String),
    /// Fired when a WebSocket connection is connecting.
    Connecting,
}

impl WebSocketStatus {
    /// Whether no further status can follow for the same handle.
    pub open spec fn is_terminal(&self) -> bool {
        match self {
            WebSocketStatus::Closed => true,
            WebSocketStatus::Error(_) => true,
            WebSocketStatus::Opened => false,
            WebSocketStatus::Connecting => false,
        }
    }
}

/// The lifecycle steps one handle may go through: a connecting socket
/// opens or fails, an open socket closes or fails, and a closed or
/// failed socket is done.
pub open spec fn may_follow(from: WebSocketStatus, to: WebSocketStatus) -> bool {
    match from {
        WebSocketStatus::Connecting => to is Opened || to is Error,
        WebSocketStatus::Opened => to is Closed || to is Error,
        WebSocketStatus::Closed => false,
        WebSocketStatus::Error(_) => false,
    }
}

/// An error encountered by a WebSocket.
#[derive(Clone, Debug, PartialEq)]
pub enum WebSocketError {
    /// An error encountered when creating the WebSocket.
    CreationError(String),
}

/// A lifecycle event delivered by the platform for one socket: the
/// socket opened, closed, or failed with a detail message.
#[derive(Clone, Debug, PartialEq)]
pub enum LifecycleEvent {
    Open,
    Close,
    Error(String),
}

/// The status a lifecycle event notifies: open yields Opened, close
/// yields Closed, and an error carries its detail.
pub open spec fn spec_status_for(e: LifecycleEvent) -> WebSocketStatus {
    match e {
        LifecycleEvent::Open => WebSocketStatus::Opened,
        LifecycleEvent::Close => WebSocketStatus::Closed,
        LifecycleEvent::Error(detail) => WebSocketStatus::Error(detail),
    }
}

/// Which lifecycle events the platform delivers while a handle shows a
/// given status: a connecting socket either opens or fails, an open
/// socket either closes or fails.
pub open spec fn may_deliver(status: WebSocketStatus, e: LifecycleEvent) -> bool {
    match status {
        WebSocketStatus::Connecting => e is Open || e is Error,
        WebSocketStatus::Opened => e is Close || e is Error,
        WebSocketStatus::Closed => false,
        WebSocketStatus::Error(_) => false,
    }
}

/// Every lifecycle event the platform can deliver in a non-terminal
/// state steps the handle along an allowed transition of the lifecycle
/// state machine.
pub proof fn lemma_lifecycle_follows_machine(from: WebSocketStatus, e: LifecycleEvent)
    requires
        !from.is_terminal(),
        may_deliver(from, e),
    ensures
        may_follow(from, spec_status_for(e)),
{
}

/// A handle to control the WebSocket connection. Its view is the
/// status last notified through this handle; dropping the handle is
/// the platform side's only teardown path.
#[must_use]
pub struct WebSocketTask {
    status: WebSocketStatus,
}

impl View for WebSocketTask {
    type V = WebSocketStatus;

    closed spec fn view(&self) -> WebSocketStatus {
        self.status
    }
}

impl WebSocketTask {
    /// A fresh handle, before any lifecycle event has arrived.
    fn new() -> (t: WebSocketTask)
        ensures
            t@ == WebSocketStatus::Connecting,
    {
        WebSocketTask { status: WebSocketStatus::Connecting }
    }

    /// The status last notified through this handle.
    pub fn status(&self) -> (s: &WebSocketStatus)
        ensures
            *s == self@,
    {
        &self.status
    }

    /// Applies one lifecycle event: the handle now shows the status
    /// that event notifies (open yields Opened, close yields Closed,
    /// an error carries its detail), which the glue forwards to the
    /// status callback slot.
    pub fn handle_lifecycle_event(&mut self, e: LifecycleEvent)
        ensures
            final(self)@ == spec_status_for(e),
    {
        self.status = match e {
            LifecycleEvent::Open => WebSocketStatus::Opened,
            LifecycleEvent::Close => WebSocketStatus::Closed,
            LifecycleEvent::Error(detail) => WebSocketStatus::Error(detail),
        };
    }

    /// Decides the notification after a text frame was handed to the
    /// transport: a successful send notifies nothing, a failed one is
    /// reported out-of-band as an Error status with the transport's
    /// detail.
    pub fn send(&mut self, result: Result<(), String>) -> (n: Option<WebSocketStatus>)
        ensures
            (match result {
                Ok(()) => n is None && final(self)@ == old(self)@,
                Err(detail) => n == Some(WebSocketStatus::Error(detail)) && final(self)@
                    == WebSocketStatus::Error(detail),
            }),
    {
        match result {
            Ok(()) => None,
            Err(detail) => {
                let reported = detail.clone();
                self.status = WebSocketStatus::Error(detail);
                Some(WebSocketStatus::Error(reported))
            },
        }
    }

    /// Decides the notification after a binary frame was handed to the
    /// transport; the contract is the same as for text frames.
    pub fn send_binary(&mut self, result: Result<(), String>) -> (n: Option<WebSocketStatus>)
        ensures
            (match result {
                Ok(()) => n is None && final(self)@ == old(self)@,
                Err(detail) => n == Some(WebSocketStatus::Error(detail)) && final(self)@
                    == WebSocketStatus::Error(detail),
            }),
    {
        match result {
            Ok(()) => None,
            Err(detail) => {
                let reported = detail.clone();
                self.status = WebSocketStatus::Error(detail);
                Some(WebSocketStatus::Error(reported))
            },
        }
    }
}

/// A WebSocket service attached to a user context.
#[derive(Default, Debug)]
pub struct WebSocketService {}

impl WebSocketService {
    /// The decision core of connecting: the Connecting notification is
    /// issued first, whatever the construction outcome; a socket whose
    /// construction threw becomes `CreationError` with that detail and
    /// no handle; a constructed socket yields a fresh handle that
    /// shows Connecting until its first lifecycle event.
    pub fn connect(creation: Result<(), String>) -> (r: (
        WebSocketStatus,
        Result<WebSocketTask, WebSocketError>,
    ))
        ensures
            r.0 == WebSocketStatus::Connecting,
            (match creation {
                Ok(()) => (match r.1 {
                    Ok(t) => t@ == WebSocketStatus::Connecting,
                    Err(_) => false,
                }),
                Err(detail) => r.1 == Err::<WebSocketTask, WebSocketError>(
                    WebSocketError::CreationError(detail),
                ),
            }),
    {
        match creation {
            Ok(()) => (WebSocketStatus::Connecting, Ok(WebSocketTask::new())),
            Err(detail) => (
                WebSocketStatus::Connecting,
                Err(WebSocketError::CreationError(detail)),
            ),
        }
    }
}

} // verus!
