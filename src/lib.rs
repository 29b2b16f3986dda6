//! Command protocol core of an application-automation server: script
//! preparation, remote-execution result correlation, command dispatch and the
//! response envelope.

pub mod text;
pub mod script;
pub mod correlator;
pub mod json;
pub mod protocol;
pub mod dispatch;
pub mod commands;
pub mod server;
pub mod config;

pub use config::{Builder, DEFAULT_CONSOLE_LOG_LIMIT, DEFAULT_HOST, DEFAULT_LOG_LEVEL, DEFAULT_PORT};
pub use server::ShutdownHandle;
