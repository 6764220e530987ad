//! Membership tiers, strictly ordered by level.

use vstd::prelude::*;
use vstd::std_specs::convert::FromSpecImpl;

verus! {

/// A tier row
#[derive(Debug, Clone)]
pub struct Tier {
    /// Unique tier identifier
    pub id: u128,
    /// Display name
    pub name: String,
    /// Description of the tier's perks
    pub description: Option<String>,
    /// Ordering level: higher levels include everything below
    pub level: i32,
    /// Monthly price in cents
    pub price_cents: i32,
    /// ISO currency code
    pub currency: String,
    /// Stripe Product backing this tier
    pub stripe_product_id: Option<String>,
    /// Stripe Price backing this tier's recurring price
    pub stripe_price_id: Option<String>,
    /// Whether the tier is currently joinable
    pub is_active: bool,
    /// Creation time
    pub created_at: i64,
    /// Last update time
    pub updated_at: i64,
}

/// A tier as the API returns it
#[derive(Debug, Clone)]
pub struct TierResponse {
    /// Tier identifier
    pub id: u128,
    /// Display name
    pub name: String,
    /// Description of the tier's perks
    pub description: Option<String>,
    /// Ordering level
    pub level: i32,
    /// Monthly price in cents
    pub price_cents: i32,
    /// ISO currency code
    pub currency: String,
    /// Whether the tier is currently joinable
    pub is_active: bool,
    /// Creation time
    pub created_at: Option<i64>,
}

/// The response for a tier row: its public fields (no Stripe ids).
pub open spec fn tier_response(t: Tier) -> TierResponse {
    TierResponse {
        id: t.id,
        name: t.name,
        description: t.description,
        level: t.level,
        price_cents: t.price_cents,
        currency: t.currency,
        is_active: t.is_active,
        created_at: Some(t.created_at),
    }
}

/// A tier response reports the row as stored: id, name, description,
/// level, monthly price, currency, whether it is joinable, and creation
/// time; the Stripe ids stay private.
pub proof fn lemma_tier_response_reports_the_row(t: Tier)
    ensures
        tier_response(t).id == t.id,
        tier_response(t).name == t.name,
        tier_response(t).description == t.description,
        tier_response(t).level == t.level,
        tier_response(t).price_cents == t.price_cents,
        tier_response(t).currency == t.currency,
        tier_response(t).is_active == t.is_active,
        tier_response(t).created_at == Some(t.created_at),
{
}

impl From<Tier> for TierResponse {
    fn from(tier: Tier) -> (r: Self) {
        TierResponse {
            id: tier.id,
            name: tier.name,
            description: tier.description,
            level: tier.level,
            price_cents: tier.price_cents,
            currency: tier.currency,
            is_active: tier.is_active,
            created_at: Some(tier.created_at),
        }
    }
}

impl FromSpecImpl<Tier> for TierResponse {
    open spec fn obeys_from_spec() -> bool {
        true
    }

    open spec fn from_spec(tier: Tier) -> TierResponse {
        tier_response(tier)
    }
}

/// Tiers ordered by level
#[derive(Debug, Clone)]
pub struct TiersListResponse(pub Vec<TierResponse>);

/// Request to create a tier
#[derive(Debug, Clone)]
pub struct CreateTierRequest {
    /// Display name
    pub name: String,
    /// Description of the tier's perks
    pub description: Option<String>,
    /// Ordering level; must be unique among tiers
    pub level: i32,
    /// Monthly price in cents
    pub price_cents: i32,
}

/// Request to update a tier; absent fields stay unchanged
#[derive(Debug, Clone)]
pub struct UpdateTierRequest {
    /// New display name
    pub name: Option<String>,
    /// New description
    pub description: Option<String>,
    /// New ordering level
    pub level: Option<i32>,
    /// New monthly price in cents (creates a new Stripe Price)
    pub price_cents: Option<i32>,
    /// Whether the tier is joinable
    pub is_active: Option<bool>,
}

} // verus!
