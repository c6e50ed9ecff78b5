//! Session management and request shaping for a desktop etcd client.
//!
//! The library decides; the caller performs the network work and reports
//! back. Everything here is verified, resting on two std calls
//! (`String::from_utf8`, `str::contains`) and on tonic's `Code` enum, whose
//! contracts are stated beside them.

pub mod client;
pub mod config;
pub mod history;
pub mod ops;
pub mod range;
pub mod state;
