//! Networking logic: framing, stream cipher, login helpers, LAN discovery,
//! rate limiting and block-change tracking.

pub mod framing;
pub mod cfb8;
pub mod session;
pub mod lan;
pub mod rate_limiter;
pub mod packet_io;
pub mod tracker;
pub mod login;
pub mod streaming;
pub mod play;
