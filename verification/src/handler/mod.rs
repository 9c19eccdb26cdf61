//! What the router answers itself.

pub mod health;
pub mod proxy;
