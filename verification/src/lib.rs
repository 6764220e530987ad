//! Verified core of a single-creator membership site: who may read which
//! post, how Stripe webhooks are authenticated and mirrored, how checkout
//! requests are formed, and the response shapes the public site serves.

pub mod models;
pub mod services;
pub mod handlers;
pub mod errors;
pub mod text;
pub mod clock;
pub mod boot;
