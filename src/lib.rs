//! Connection manager for tool servers: a registry of client connections with
//! a lifecycle, the rules that decide each forwarded operation, and the
//! normalisation of tool-call arguments.

pub mod json;
pub mod types;
pub mod client;
pub mod dispatch;
pub mod transport;
pub mod launch;
pub mod laws;
pub mod encryption;
