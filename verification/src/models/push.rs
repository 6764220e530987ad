//! Browser Web Push subscriptions.

use vstd::prelude::*;

verus! {

/// A browser's push subscription row
#[derive(Debug, Clone)]
pub struct PushSubscription {
    /// Unique row identifier
    pub id: u128,
    /// Owning user, if the browser was signed in when subscribing
    pub user_id: Option<u128>,
    /// Push service endpoint URL
    pub endpoint: String,
    /// Client public key (base64url)
    pub p256dh: String,
    /// Client auth secret (base64url)
    pub auth: String,
    /// Creation time
    pub created_at: i64,
}

/// Request to register a browser's push subscription
#[derive(Debug, Clone)]
pub struct PushSubscribeRequest {
    /// Push service endpoint URL
    pub endpoint: String,
    /// Client public key (base64url)
    pub p256dh: String,
    /// Client auth secret (base64url)
    pub auth: String,
}

/// Request to remove a browser's push subscription
#[derive(Debug, Clone)]
pub struct PushUnsubscribeRequest {
    /// Push service endpoint URL to remove
    pub endpoint: String,
}

/// The server's VAPID public key
#[derive(Debug, Clone)]
pub struct PushKeyResponse {
    /// VAPID public key (base64url), for `PushManager.subscribe`
    pub public_key: String,
}

} // verus!
