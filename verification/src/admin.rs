//! Administration: metrics switch, the server console and the remote
//! console protocol.

pub mod metrics;
pub mod rcon;
pub mod console;
