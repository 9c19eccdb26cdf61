//! The upstream pools: what they hold, and how discovery and health polling
//! change them.

pub mod discovery;
pub mod health;
pub mod shared;
pub mod snapshot;
