//! Authentication: login throttling, one-time codes, token hashing and the
//! decisions taken by the registration / login / recovery flows.

pub mod code;
pub mod extract;
pub mod model;
pub mod policy;
pub mod throttle;
pub mod token;
