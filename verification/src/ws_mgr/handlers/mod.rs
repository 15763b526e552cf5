//! Handlers that react to the messages of a connection.
pub mod config;
pub mod connection_event_handler;
pub mod connection_handlers;
pub mod exchange_subscription_manager;
pub mod read_timeout_handler;

pub use config::HandlerConfig;
