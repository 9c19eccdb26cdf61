//! Where a request goes.

pub mod fallback;
pub mod policy;
pub mod proxy;
pub mod route_policy;
