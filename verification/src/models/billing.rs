//! Billing records mirrored from Stripe, and the billing API shapes.

use vstd::prelude::*;
use vstd::string::*;

verus! {

/// A user's Stripe customer
#[derive(Debug, Clone)]
pub struct StripeCustomer {
    /// The user this Stripe customer belongs to
    pub user_id: u128,
    /// Stripe customer id
    pub stripe_customer_id: String,
    /// Creation time
    pub created_at: i64,
}

/// A Stripe subscription as mirrored locally
#[derive(Debug, Clone)]
pub struct Subscription {
    /// Unique row identifier
    pub id: u128,
    /// Subscribing user
    pub user_id: u128,
    /// The tier subscribed to (None if the tier was deleted)
    pub tier_id: Option<u128>,
    /// Snapshot of the tier's level used for gating
    pub tier_level: i32,
    /// Stripe subscription id
    pub stripe_subscription_id: String,
    /// Stripe status mirror (active, trialing, past_due, canceled, ...)
    pub status: String,
    /// End of the current billing period
    pub current_period_end: Option<i64>,
    /// Whether the subscription cancels at period end
    pub cancel_at_period_end: bool,
    /// Creation time
    pub created_at: i64,
    /// Last update time
    pub updated_at: i64,
}

/// Whether a Stripe subscription status grants access: `active` or `trialing`.
pub open spec fn status_grants_access(status: Seq<char>) -> bool {
    status == "active"@ || status == "trialing"@
}

impl Subscription {
    /// Whether this subscription currently grants access
    pub fn grants_access(&self) -> (granted: bool)
        ensures
            granted == status_grants_access(self.status@),
    {
        let active = String::from_str("active");
        let trialing = String::from_str("trialing");
        self.status == active || self.status == trialing
    }
}

/// A one-off purchase of a post or a series
#[derive(Debug, Clone)]
pub struct Purchase {
    /// Unique row identifier
    pub id: u128,
    /// Purchasing user
    pub user_id: u128,
    /// Purchased post (exclusive with `series_id`)
    pub post_id: Option<u128>,
    /// Purchased series (exclusive with `post_id`)
    pub series_id: Option<u128>,
    /// Stripe Checkout session that produced this purchase
    pub stripe_checkout_session_id: Option<String>,
    /// Stripe payment intent
    pub stripe_payment_intent_id: Option<String>,
    /// Amount paid in cents
    pub amount_cents: Option<i32>,
    /// Purchase status (paid, refunded)
    pub status: String,
    /// Creation time
    pub created_at: i64,
}

/// Whether a purchase status counts as owned: `paid`.
pub open spec fn status_is_paid(status: Seq<char>) -> bool {
    status == "paid"@
}

impl Purchase {
    /// Whether this purchase is paid (and so confers ownership)
    pub fn is_paid(&self) -> (paid: bool)
        ensures
            paid == status_is_paid(self.status@),
    {
        let paid = String::from_str("paid");
        self.status == paid
    }
}


/// A processed Stripe webhook event
#[derive(Debug, Clone)]
pub struct StripeEvent {
    /// Stripe event id
    pub id: String,
    /// Stripe event type
    pub event_type: String,
    /// When the event was processed
    pub processed_at: i64,
}

/// A fan's current subscription state, for API responses
#[derive(Debug, Clone)]
pub struct SubscriptionInfo {
    /// The subscribed tier (None if that tier was deleted)
    pub tier_id: Option<u128>,
    /// The subscribed tier's level
    pub tier_level: i32,
    /// Stripe status mirror
    pub status: String,
    /// Whether the subscription ends at period end
    pub cancel_at_period_end: bool,
    /// End of the current billing period
    pub current_period_end: Option<i64>,
}

/// A single owned item in a fan's billing summary
#[derive(Debug, Clone)]
pub struct PurchaseInfo {
    /// Purchased post, if a post purchase
    pub post_id: Option<u128>,
    /// Purchased series, if a series purchase
    pub series_id: Option<u128>,
    /// Amount paid in cents
    pub amount_cents: Option<i32>,
    /// When the purchase happened
    pub created_at: Option<i64>,
}

/// A fan's complete billing state: subscription + owned purchases
#[derive(Debug, Clone)]
pub struct BillingMeResponse {
    /// Active or most recent subscription, if any
    pub subscription: Option<SubscriptionInfo>,
    /// One-off purchases owned by this fan
    pub purchases: Vec<PurchaseInfo>,
}

/// Request to start a subscription checkout
#[derive(Debug, Clone, Copy)]
pub struct SubscribeRequest {
    /// The tier to subscribe to
    pub tier_id: u128,
}

/// Request to start a one-off purchase checkout for a post or series
#[derive(Debug, Clone, Copy)]
pub struct PurchaseRequest {
    /// Post to buy (exclusive with `series_id`)
    pub post_id: Option<u128>,
    /// Series to buy (exclusive with `post_id`)
    pub series_id: Option<u128>,
}

/// Response carrying a Stripe-hosted URL to redirect the fan to
#[derive(Debug, Clone)]
pub struct CheckoutUrlResponse {
    /// Stripe-hosted page URL
    pub url: String,
}

} // verus!
