//! Decisions taken at startup.

pub mod server;
pub mod startup;
