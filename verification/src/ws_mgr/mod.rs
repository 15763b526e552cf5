//! The decision logic of a manager of named WebSocket connections: which
//! connection a write or a close reaches, when a connection is reconnected
//! and after what back-off, what the ping, read and write actors do with each
//! event, and what the handlers send and when.
pub mod config;
pub mod connection;
pub mod handlers;
pub mod manager;
pub mod table;

pub use config::Config;
pub use manager::{ManagerError, Message};
