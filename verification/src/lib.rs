//! A verified core for a small WebSocket echo client.
//!
//! The library holds the decision logic of a thin WebSocket connection
//! wrapper: how incoming message events are classified into text or
//! binary frames, how lifecycle events map to status notifications,
//! what `connect` yields for each construction outcome, and how a
//! failed send is reported. The platform plumbing that produces those
//! events (socket construction, event listeners, the reactive UI) is
//! ordinary unverified glue around this crate.

pub mod connection;
pub mod message;

pub use connection::LifecycleEvent;
pub use connection::WebSocketError;
pub use connection::WebSocketService;
pub use connection::WebSocketStatus;
pub use connection::WebSocketTask;
pub use message::MessageData;
pub use message::WebSocketMessage;
