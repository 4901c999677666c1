//! A uniform model of remote devices: identifiers, typed inputs, platforms
//! and sessions.

pub mod control;
pub mod order;
pub mod platform;
pub mod session;
