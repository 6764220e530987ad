//! Push subscription endpoints: the key browsers subscribe with, and the
//! rows stored per browser.

use vstd::prelude::*;
use vstd::string::*;
use crate::errors::ServiceError;
use crate::models::push::{PushKeyResponse, PushSubscribeRequest, PushSubscription};
use crate::services::push::PushService;

verus! {

/// The VAPID public key, or not found when push is not configured
pub fn push_key_response(push: Option<&PushService>) -> (r: Result<PushKeyResponse, ServiceError>)
    ensures
        push matches Some(p) ==> (r matches Ok(k) && k.public_key@ == p.public_key_view()),
        push is None ==> (r matches Err(ServiceError::NotFound(m)) && m@ == "Push notifications not configured"@),
{
    match push {
        Some(p) => Ok(PushKeyResponse { public_key: String::from_str(p.public_key()) }),
        None => Err(ServiceError::NotFound(String::from_str("Push notifications not configured"))),
    }
}

/// The row stored for a browser subscription, owned by the signed-in user
/// if any, stamped with row id `id` and time `now`
pub fn new_push_subscription(id: u128, user_id: Option<u128>, body: PushSubscribeRequest, now: i64) -> (s: PushSubscription)
    ensures
        s == (PushSubscription {
            id,
            user_id,
            endpoint: body.endpoint,
            p256dh: body.p256dh,
            auth: body.auth,
            created_at: now,
        }),
{
    PushSubscription { id, user_id, endpoint: body.endpoint, p256dh: body.p256dh, auth: body.auth, created_at: now }
}

} // verus!
