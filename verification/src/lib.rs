//! The protocol logic of an OCPP-J client (charge point side): framing, request/response
//! correlation, handler dispatch, WebSocket keepalive, reconnect backoff, version negotiation
//! and the per-version CALLERROR codes, for OCPP 1.6J, 2.0.1 and 2.1.
//!
//! Every function here states what it does in its contract and is checked against it. The
//! asynchronous runtime around it - transports, timers, tasks - drives these decisions.

pub mod client;
pub mod connect;
pub mod engine;
pub mod envelope;
pub mod frame_assembly;
pub mod ids;
pub mod json;
pub mod keepalive;
pub mod ocpp_1_6;
pub mod ocpp_2_0_1;
pub mod ocpp_2_1;
pub mod reconnect;
pub mod registry;
pub mod runtime;
mod text;
pub mod time;
pub mod transport;
pub mod validation;

pub use client::ClientConfig;
pub use connect::OcppVersion;
pub use keepalive::{KeepaliveBehavior, KeepalivePolicy};
pub use reconnect::{ReconnectBehavior, ReconnectPolicy};
pub use runtime::{Cancelled, Elapsed};
pub use time::Duration;
pub use transport::TransportEvent;
