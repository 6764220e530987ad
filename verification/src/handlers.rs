//! The decisions taken by the HTTP handlers, apart from their I/O.

pub mod stripe_webhook;
pub mod public;
pub mod billing;
pub mod tiers;
pub mod engagement;
pub mod push;
pub mod site;
