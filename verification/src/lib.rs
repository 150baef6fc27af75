//! Blunt: an opinionated way to build asynchronous WebSocket servers.
//!
//! This crate holds the verified core of the server: the table of endpoints, the
//! routing of incoming HTTP requests, the registry of live WebSocket sessions and its
//! metrics, and the decisions taken for every WebSocket message.
mod assoc;
pub mod endpoints;
pub mod rt;
pub mod server;
pub mod service;
pub mod websocket;

pub use server::MetricsMetadata;
pub use websocket::{CloseFrame, WebSocketMessage, WebSocketSession};
