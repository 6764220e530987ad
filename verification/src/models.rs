//! Data models shared by the services and handlers.
//!
//! Identifiers are UUIDs held as their 128-bit value; timestamps are
//! microseconds since the Unix epoch (UTC).

pub mod posts;
pub mod billing;
pub mod series;
pub mod tiers;
pub mod engagement;
pub mod push;
