//! PhoenixD Lightning node HTTP API: request shapes, responses and errors.
pub mod client;
pub mod error;
pub mod types;
