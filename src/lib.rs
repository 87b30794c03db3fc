//! Relays the reports of a Bluetooth LE boot-style keyboard to a host's
//! virtual keyboard: report decoding, key-state diffing, endpoint resolution
//! and the supervisor's reconnection decisions, each with a verified contract.

pub mod config;
pub mod keys;
pub mod keyset;
pub mod diff;
pub mod report;
pub mod relay;
pub mod resolve;
pub mod supervisor;
