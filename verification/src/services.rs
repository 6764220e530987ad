//! Domain services: entitlements, Stripe, Web Push.

pub mod entitlements;
pub mod stripe;
pub mod push;
