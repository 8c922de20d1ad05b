//! Routing core of a small reverse proxy: location matching, upstream
//! resolution, proxy target handling and the per-request decisions that sit
//! between an inbound request and the outbound connection.

pub mod command;
pub mod error;
pub mod file_server;
pub mod headers;
pub mod location;
pub mod proxy;
pub mod server;
pub mod target;
pub mod text;
pub mod upstream;
