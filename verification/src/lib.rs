//! Routing core of a reverse proxy for BGE-M3 embedding upstreams.

pub mod bootstrap;
pub mod config;
pub mod error;
pub mod handler;
pub mod headers;
pub mod logging;
pub mod metrics;
pub mod router;
pub mod state;
pub mod text;
pub mod time;
pub mod upstream;
