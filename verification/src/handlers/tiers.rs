//! Tier management: validation, the rows written, and when a price change
//! mints a new Stripe price.

use vstd::prelude::*;
use vstd::string::*;
use crate::errors::ServiceError;
use crate::services::stripe::PriceMint;
use crate::models::tiers::{CreateTierRequest, Tier, TierResponse, TiersListResponse, UpdateTierRequest, tier_response};

verus! {

/// The currency of every tier and sale
pub const CURRENCY: &'static str = "usd";

/// A new tier must have a positive price; otherwise the tier data is
/// invalid (a bad request).
pub fn validate_new_tier(body: &CreateTierRequest) -> (r: Result<(), ServiceError>)
    ensures
        body.price_cents > 0 <==> r is Ok,
        r is Err ==> (r matches Err(ServiceError::BadRequest(m)) && m@ == "Price must be positive"@),
{
    if body.price_cents <= 0 {
        return Err(ServiceError::BadRequest(String::from_str("Price must be positive")));
    }
    Ok(())
}

/// The Stripe product and monthly price a new tier gets: one exactly when
/// Stripe is configured, named after the tier, of its price in the site's
/// currency
pub fn tier_mint_plan(stripe_configured: bool, body: &CreateTierRequest) -> (m: Option<PriceMint>)
    ensures
        m is Some <==> stripe_configured,
        m matches Some(p) ==> {
            &&& p.product_name@ == body.name@
            &&& p.amount_cents == body.price_cents
            &&& p.currency@ == CURRENCY@
            &&& p.recurring_monthly
        },
{
    if stripe_configured {
        Some(PriceMint {
            product_name: body.name.clone(),
            amount_cents: body.price_cents,
            currency: String::from_str(CURRENCY),
            recurring_monthly: true,
        })
    } else {
        None
    }
}

/// The text of an optional string.
pub open spec fn opt_view(s: Option<String>) -> Option<Seq<char>> {
    match s {
        Some(t) => Some(t@),
        None => None,
    }
}

fn clone_opt(s: &Option<String>) -> (r: Option<String>)
    ensures
        opt_view(r) == opt_view(*s),
{
    match s {
        Some(t) => Some(t.clone()),
        None => None,
    }
}

/// The row of a newly created tier: active, priced in `usd`, backed by the
/// Stripe product and price when Stripe minted them, stamped with row id
/// `id` and time `now`
pub fn new_tier(body: &CreateTierRequest, id: u128, now: i64, stripe_product_id: Option<String>, stripe_price_id: Option<String>) -> (t: Tier)
    ensures
        t.id == id,
        t.name@ == body.name@,
        opt_view(t.description) == opt_view(body.description),
        t.level == body.level,
        t.price_cents == body.price_cents,
        t.currency@ == CURRENCY@,
        t.stripe_product_id == stripe_product_id,
        t.stripe_price_id == stripe_price_id,
        t.is_active,
        t.created_at == now,
        t.updated_at == now,
{
    Tier {
        id,
        name: body.name.clone(),
        description: clone_opt(&body.description),
        level: body.level,
        price_cents: body.price_cents,
        currency: String::from_str(CURRENCY),
        stripe_product_id,
        stripe_price_id,
        is_active: true,
        created_at: now,
        updated_at: now,
    }
}

/// A new monthly Stripe price to mint for a tier, and the old price to
/// archive afterwards
#[derive(Debug, Clone)]
pub struct PriceChange {
    /// The tier's Stripe product
    pub product_id: String,
    /// The new monthly amount in cents
    pub amount_cents: i32,
    /// The tier's currency
    pub currency: String,
    /// The price to archive, if the tier had one
    pub archive_price_id: Option<String>,
}

/// Whether an update mints a new price: a new amount is given, differs from
/// the current one, Stripe is configured, and the tier has a product.
pub open spec fn mints_new_price(existing: Tier, price_cents: Option<i32>, stripe_configured: bool) -> bool {
    &&& price_cents is Some
    &&& price_cents->0 != existing.price_cents
    &&& stripe_configured
    &&& existing.stripe_product_id is Some
}

/// `r` is the price change an update of `existing` to `price_cents` asks
/// for: one exactly when it mints a new price, for the tier's product, of
/// the new amount in the tier's currency, archiving the tier's old price.
pub open spec fn price_change_ok(existing: Tier, price_cents: Option<i32>, stripe_configured: bool, r: Option<PriceChange>) -> bool {
    &&& r is Some <==> mints_new_price(existing, price_cents, stripe_configured)
    &&& r matches Some(c) ==> {
        &&& Some(c.product_id@) == opt_view(existing.stripe_product_id)
        &&& c.amount_cents == price_cents->0
        &&& c.currency@ == existing.currency@
        &&& opt_view(c.archive_price_id) == opt_view(existing.stripe_price_id)
    }
}

/// The Stripe price change an update asks for, if any. Existing
/// subscribers keep their old price; new checkouts use the new one.
pub fn price_change(existing: &Tier, price_cents: Option<i32>, stripe_configured: bool) -> (r: Option<PriceChange>)
    ensures
        price_change_ok(*existing, price_cents, stripe_configured, r),
{
    let amount = match price_cents {
        Some(p) => p,
        None => return None,
    };
    if amount == existing.price_cents || !stripe_configured {
        return None;
    }
    match &existing.stripe_product_id {
        Some(product) => Some(PriceChange {
            product_id: product.clone(),
            amount_cents: amount,
            currency: existing.currency.clone(),
            archive_price_id: clone_opt(&existing.stripe_price_id),
        }),
        None => None,
    }
}

/// An optional replacement applied to a value.
pub open spec fn replaced<T>(new: Option<T>, old: T) -> T {
    match new {
        Some(v) => v,
        None => old,
    }
}

/// The tier after an update at time `now`: each given field replaced, the
/// Stripe price replaced when a new one was minted, the rest kept.
pub open spec fn updated_tier_ok(existing: Tier, body: UpdateTierRequest, new_price_id: Option<String>, now: i64, t: Tier) -> bool {
    &&& t.id == existing.id
    &&& t.name@ == replaced(opt_view(body.name), existing.name@)
    &&& opt_view(t.description) == (match body.description {
        Some(d) => Some(d@),
        None => opt_view(existing.description),
    })
    &&& t.level == replaced(body.level, existing.level)
    &&& t.price_cents == replaced(body.price_cents, existing.price_cents)
    &&& t.currency@ == existing.currency@
    &&& opt_view(t.stripe_product_id) == opt_view(existing.stripe_product_id)
    &&& opt_view(t.stripe_price_id) == (match new_price_id {
        Some(p) => Some(p@),
        None => opt_view(existing.stripe_price_id),
    })
    &&& t.is_active == replaced(body.is_active, existing.is_active)
    &&& t.created_at == existing.created_at
    &&& t.updated_at == now
}

/// Every change of a tier's price reaches Stripe: whenever Stripe is
/// configured and the tier has a product, an update to any amount other
/// than the current one (higher or lower) mints a price of exactly that
/// amount for the tier's product and archives the old price.
pub proof fn lemma_price_change_minted_in_both_directions(existing: Tier, amount: i32, r: Option<PriceChange>)
    requires
        existing.stripe_product_id is Some,
        amount != existing.price_cents,
        price_change_ok(existing, Some(amount), true, r),
    ensures
        r matches Some(c) && c.amount_cents == amount
            && Some(c.product_id@) == opt_view(existing.stripe_product_id)
            && opt_view(c.archive_price_id) == opt_view(existing.stripe_price_id),
{
}

/// Keeping a tier's price, or giving none, mints nothing.
pub proof fn lemma_unchanged_price_mints_nothing(existing: Tier, amount: Option<i32>, stripe_configured: bool, r: Option<PriceChange>)
    requires
        amount is None || amount == Some(existing.price_cents),
        price_change_ok(existing, amount, stripe_configured, r),
    ensures
        r is None,
{
}

/// Without Stripe no price is minted, whatever the update.
pub proof fn lemma_no_price_without_stripe(existing: Tier, amount: Option<i32>, r: Option<PriceChange>)
    requires
        price_change_ok(existing, amount, false, r),
    ensures
        r is None,
{
}

/// After an update that mints a price, the tier's stored price is the
/// amount of its new Stripe price, and its Stripe price is the new one.
pub proof fn lemma_stored_price_matches_stripe_price(
    existing: Tier,
    body: UpdateTierRequest,
    r: Option<PriceChange>,
    new_price_id: String,
    now: i64,
    t: Tier,
)
    requires
        price_change_ok(existing, body.price_cents, true, r),
        r is Some,
        updated_tier_ok(existing, body, Some(new_price_id), now, t),
    ensures
        t.price_cents == r->0.amount_cents,
        opt_view(t.stripe_price_id) == Some(new_price_id@),
        opt_view(t.stripe_product_id) == Some(r->0.product_id@),
{
}

/// An update changes exactly what it names: each given field takes the
/// given value, each field not given keeps the tier's, the tier stays the
/// same tier in the same currency with the same product, and applying the
/// same update again changes nothing more.
pub proof fn lemma_update_changes_what_it_names(
    existing: Tier,
    body: UpdateTierRequest,
    new_price_id: Option<String>,
    now: i64,
    t: Tier,
    again: Tier,
)
    requires
        updated_tier_ok(existing, body, new_price_id, now, t),
        updated_tier_ok(t, body, new_price_id, now, again),
    ensures
        t.id == existing.id,
        body.name matches Some(n) ==> t.name@ == n@,
        body.name is None ==> t.name@ == existing.name@,
        body.description matches Some(d) ==> opt_view(t.description) == Some(d@),
        body.description is None ==> opt_view(t.description) == opt_view(existing.description),
        body.level matches Some(l) ==> t.level == l,
        body.level is None ==> t.level == existing.level,
        body.price_cents matches Some(p) ==> t.price_cents == p,
        body.price_cents is None ==> t.price_cents == existing.price_cents,
        body.is_active matches Some(a) ==> t.is_active == a,
        body.is_active is None ==> t.is_active == existing.is_active,
        t.currency@ == existing.currency@,
        opt_view(t.stripe_product_id) == opt_view(existing.stripe_product_id),
        new_price_id is None ==> opt_view(t.stripe_price_id) == opt_view(existing.stripe_price_id),
        t.created_at == existing.created_at,
        again.name@ == t.name@ && opt_view(again.description) == opt_view(t.description) && again.level == t.level
            && again.price_cents == t.price_cents && again.is_active == t.is_active
            && opt_view(again.stripe_price_id) == opt_view(t.stripe_price_id),
{
}

/// Apply an update to a tier
pub fn apply_tier_update(existing: Tier, body: &UpdateTierRequest, new_price_id: Option<String>, now: i64) -> (t: Tier)
    ensures
        updated_tier_ok(existing, *body, new_price_id, now, t),
{
    let mut t = existing;
    if let Some(name) = &body.name {
        t.name = name.clone();
    }
    if let Some(description) = &body.description {
        t.description = Some(description.clone());
    }
    if let Some(level) = body.level {
        t.level = level;
    }
    if let Some(price) = body.price_cents {
        t.price_cents = price;
    }
    if let Some(active) = body.is_active {
        t.is_active = active;
    }
    if let Some(price_id) = new_price_id {
        t.stripe_price_id = Some(price_id);
    }
    t.updated_at = now;
    t
}

/// Deactivating a tier that matched no row is a not-found error
pub fn deactivation_result(rows_affected: usize) -> (r: Result<(), ServiceError>)
    ensures
        rows_affected > 0 <==> r is Ok,
        r is Err ==> (r matches Err(ServiceError::NotFound(m)) && m@ == "Tier not found"@),
{
    if rows_affected == 0 {
        return Err(ServiceError::NotFound(String::from_str("Tier not found")));
    }
    Ok(())
}

/// The responses for tiers in order, keeping only active ones when
/// `active_only` (the public list)
pub fn tiers_response(tiers: Vec<Tier>, active_only: bool) -> (r: TiersListResponse)
    ensures
        r.0@ == tiers@.filter(|t: Tier| !active_only || t.is_active).map_values(|t: Tier| tier_response(t)),
{
    let mut out: Vec<TierResponse> = Vec::new();
    let mut rest = tiers;
    let ghost all = rest@;
    let ghost keep = |t: Tier| !active_only || t.is_active;
    let total: usize = rest.len();
    let mut k: usize = 0;
    assert(all.take(0).filter(keep) =~= Seq::<Tier>::empty()) by {
        reveal_with_fuel(Seq::<Tier>::filter, 1);
    }
    while rest.len() > 0
        invariant
            k + rest@.len() == all.len(),
            all.len() == total,
            rest@ == all.skip(k as int),
            keep == (|t: Tier| !active_only || t.is_active),
            out@ == all.take(k as int).filter(keep).map_values(|t: Tier| tier_response(t)),
        decreases rest@.len(),
    {
        let t = rest.remove(0);
        assert(t == all[k as int]);
        let ghost prefix = all.take(k as int);
        assert(all.take(k + 1) =~= prefix.push(t));
        assert(all.take(k + 1).filter(keep) == if keep(t) { prefix.filter(keep).push(t) } else { prefix.filter(keep) }) by {
            reveal_with_fuel(Seq::<Tier>::filter, 1);
            assert(all.take(k + 1).drop_last() =~= prefix);
            assert(all.take(k + 1).last() == t);
        }
        if !active_only || t.is_active {
            let ghost before = out@;
            out.push(TierResponse::from(t));
            assert(out@ =~= before.push(tier_response(t)));
            assert(all.take(k + 1).filter(keep).map_values(|t: Tier| tier_response(t))
                =~= prefix.filter(keep).map_values(|t: Tier| tier_response(t)).push(tier_response(t)));
        }
        k = k + 1;
        assert(rest@ =~= all.skip(k as int));
    }
    assert(all.take(all.len() as int) =~= all);
    TiersListResponse(out)
}

} // verus!
