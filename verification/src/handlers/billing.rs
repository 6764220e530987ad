//! Billing: which checkout a fan may start and with what parameters, and
//! the fan's billing summary.

use vstd::prelude::*;
use vstd::string::*;
use crate::errors::ServiceError;
use crate::models::billing::{status_grants_access, status_is_paid,
    BillingMeResponse, Purchase, PurchaseInfo, PurchaseRequest, StripeCustomer, Subscription, SubscriptionInfo,
};
use crate::models::posts::Post;
use crate::models::series::Series;
use crate::models::tiers::Tier;
use crate::services::stripe::{PriceMint, StripeService};
use crate::handlers::tiers::CURRENCY;
use crate::text::{parsed_uuid, concat_str, i64_to_string, pairs_view, decimal, uuid_hyphenated, uuid_to_string};

verus! {

/// The frontend base URL when `APPLICATION_FRONTEND_URL` is not set
pub const DEFAULT_FRONTEND_URL: &'static str = "http://localhost:5173";

/// The public frontend base URL for Stripe redirect targets, from the value
/// of `APPLICATION_FRONTEND_URL`
pub fn frontend_url(configured: Option<String>) -> (url: String)
    ensures
        url@ == (match configured {
            Some(u) => u@,
            None => DEFAULT_FRONTEND_URL@,
        }),
{
    match configured {
        Some(u) => u,
        None => String::from_str(DEFAULT_FRONTEND_URL),
    }
}

/// The page Stripe returns to after a successful checkout
pub fn success_url(frontend: &str) -> (url: String)
    ensures
        url@ == frontend@ + "/billing/success"@,
{
    concat_str(frontend, "/billing/success")
}

/// The page Stripe returns to after an abandoned checkout
pub fn cancel_url(frontend: &str) -> (url: String)
    ensures
        url@ == frontend@ + "/billing/cancel"@,
{
    concat_str(frontend, "/billing/cancel")
}

/// The page the billing portal returns to
pub fn portal_return_url(frontend: &str) -> (url: String)
    ensures
        url@ == frontend@ + "/settings"@,
{
    concat_str(frontend, "/settings")
}

/// The Stripe client, or a configuration error when Stripe is not set up
pub fn require_stripe(stripe: Option<&StripeService>) -> (r: Result<&StripeService, ServiceError>)
    ensures
        stripe matches Some(s) ==> r == Ok::<&StripeService, ServiceError>(s),
        stripe is None ==> (r matches Err(ServiceError::Config(m)) && m@ == "Stripe is not configured"@),
{
    match stripe {
        Some(s) => Ok(s),
        None => Err(ServiceError::Config(String::from_str("Stripe is not configured"))),
    }
}

/// The subscription checkout for a tier: its Stripe price and the metadata
/// the webhook reads back (`user_id`, `tier_id`, `tier_level`).
pub struct SubscriptionCheckout {
    /// The tier's recurring Stripe price
    pub price_id: String,
    /// Checkout metadata
    pub metadata: Vec<(String, String)>,
}

/// The metadata of a subscription checkout.
pub open spec fn subscription_metadata(user_id: u128, tier: Tier) -> Seq<(Seq<char>, Seq<char>)> {
    seq![
        ("user_id"@, uuid_hyphenated(user_id)),
        ("tier_id"@, uuid_hyphenated(tier.id)),
        ("tier_level"@, decimal(tier.level as int)),
    ]
}

/// The checkout for subscribing `user_id` to an active tier; a
/// configuration error when the tier has no Stripe price.
pub fn subscription_checkout(tier: &Tier, user_id: u128) -> (r: Result<SubscriptionCheckout, ServiceError>)
    ensures
        tier.stripe_price_id is None ==> (r matches Err(ServiceError::Config(m)) && m@ == "Tier has no Stripe price"@),
        tier.stripe_price_id matches Some(p) ==> (r matches Ok(c) && c.price_id@ == p@
            && pairs_view(c.metadata@) == subscription_metadata(user_id, *tier)),
        r is Ok ==> parsed_uuid(uuid_hyphenated(user_id)) == Some(user_id)
            && parsed_uuid(uuid_hyphenated(tier.id)) == Some(tier.id),
{
    let price_id = match &tier.stripe_price_id {
        Some(p) => p.clone(),
        None => return Err(ServiceError::Config(String::from_str("Tier has no Stripe price"))),
    };
    let mut metadata: Vec<(String, String)> = Vec::new();
    metadata.push((String::from_str("user_id"), uuid_to_string(user_id)));
    metadata.push((String::from_str("tier_id"), uuid_to_string(tier.id)));
    metadata.push((String::from_str("tier_level"), i64_to_string(tier.level as i64)));
    assert(pairs_view(metadata@) =~= subscription_metadata(user_id, *tier));
    Ok(SubscriptionCheckout { price_id, metadata })
}

/// What a purchase request asks to buy
#[derive(Debug, Clone, Copy, PartialEq, Eq, Structural)]
pub enum PurchaseTarget {
    /// A single post
    Post(u128),
    /// A whole series
    Series(u128),
}

/// The item a purchase request names: exactly one of a post or a series,
/// else a bad request.
pub fn purchase_target(request: &PurchaseRequest) -> (r: Result<PurchaseTarget, ServiceError>)
    ensures
        match (request.post_id, request.series_id) {
            (Some(p), None) => r == Ok::<PurchaseTarget, ServiceError>(PurchaseTarget::Post(p)),
            (None, Some(s)) => r == Ok::<PurchaseTarget, ServiceError>(PurchaseTarget::Series(s)),
            _ => r matches Err(ServiceError::BadRequest(m)) && m@ == "Provide exactly one of postId or seriesId"@,
        },
{
    match (request.post_id, request.series_id) {
        (Some(p), None) => Ok(PurchaseTarget::Post(p)),
        (None, Some(s)) => Ok(PurchaseTarget::Series(s)),
        _ => Err(ServiceError::BadRequest(String::from_str("Provide exactly one of postId or seriesId"))),
    }
}

/// A post or series resolved for sale
#[derive(Debug, Clone)]
pub struct SellableItem {
    /// Name of the Stripe product (the item's title)
    pub name: String,
    /// Price in cents
    pub amount_cents: i32,
    /// The item's Stripe price, once minted
    pub stripe_price_id: Option<String>,
    /// Metadata key naming the item (`post_id` or `series_id`)
    pub meta_key: String,
    /// The item's id, hyphenated
    pub meta_value: String,
}

/// The text of an optional string.
pub open spec fn opt_view(s: Option<String>) -> Option<Seq<char>> {
    match s {
        Some(t) => Some(t@),
        None => None,
    }
}

/// `item` is a priced post for sale: named and priced as the post, with
/// its Stripe price, and named in metadata under `post_id` by its UUID.
pub open spec fn post_for_sale(post: Post, item: SellableItem) -> bool {
    &&& post.price_cents is Some
    &&& item.name@ == post.title@
    &&& item.amount_cents == post.price_cents->0
    &&& opt_view(item.stripe_price_id) == opt_view(post.stripe_price_id)
    &&& item.meta_key@ == "post_id"@
    &&& item.meta_value@ == uuid_hyphenated(post.id)
    &&& parsed_uuid(item.meta_value@) == Some(post.id)
}

/// `item` is a priced series for sale: named and priced as the series, with
/// its Stripe price, and named in metadata under `series_id` by its UUID.
pub open spec fn series_for_sale(series: Series, item: SellableItem) -> bool {
    &&& series.price_cents is Some
    &&& item.name@ == series.title@
    &&& item.amount_cents == series.price_cents->0
    &&& opt_view(item.stripe_price_id) == opt_view(series.stripe_price_id)
    &&& item.meta_key@ == "series_id"@
    &&& item.meta_value@ == uuid_hyphenated(series.id)
    &&& parsed_uuid(item.meta_value@) == Some(series.id)
}

/// A post for sale; a bad request when it has no price
pub fn sellable_post(post: Post) -> (r: Result<SellableItem, ServiceError>)
    ensures
        post.price_cents is None ==> (r matches Err(ServiceError::BadRequest(m)) && m@ == "This post is not purchasable"@),
        post.price_cents is Some ==> (r matches Ok(item) && post_for_sale(post, item)),
{
    let amount_cents = match post.price_cents {
        Some(a) => a,
        None => return Err(ServiceError::BadRequest(String::from_str("This post is not purchasable"))),
    };
    Ok(SellableItem {
        name: post.title,
        amount_cents,
        stripe_price_id: post.stripe_price_id,
        meta_key: String::from_str("post_id"),
        meta_value: uuid_to_string(post.id),
    })
}

/// A series for sale as a bundle; a bad request when it has no price
pub fn sellable_series(series: Series) -> (r: Result<SellableItem, ServiceError>)
    ensures
        series.price_cents is None ==> (r matches Err(ServiceError::BadRequest(m)) && m@ == "This series is not purchasable"@),
        series.price_cents is Some ==> (r matches Ok(item) && series_for_sale(series, item)),
{
    let amount_cents = match series.price_cents {
        Some(a) => a,
        None => return Err(ServiceError::BadRequest(String::from_str("This series is not purchasable"))),
    };
    Ok(SellableItem {
        name: series.title,
        amount_cents,
        stripe_price_id: series.stripe_price_id,
        meta_key: String::from_str("series_id"),
        meta_value: uuid_to_string(series.id),
    })
}

/// The metadata of a one-off checkout: buyer, item, amount.
pub open spec fn purchase_metadata_spec(user_id: u128, item: SellableItem) -> Seq<(Seq<char>, Seq<char>)> {
    seq![
        ("user_id"@, uuid_hyphenated(user_id)),
        (item.meta_key@, item.meta_value@),
        ("amount_cents"@, decimal(item.amount_cents as int)),
    ]
}

/// The metadata of a one-off checkout, which the webhook reads back
pub fn purchase_metadata(user_id: u128, item: &SellableItem) -> (m: Vec<(String, String)>)
    ensures
        pairs_view(m@) == purchase_metadata_spec(user_id, *item),
        parsed_uuid(uuid_hyphenated(user_id)) == Some(user_id),
{
    let mut m: Vec<(String, String)> = Vec::new();
    m.push((String::from_str("user_id"), uuid_to_string(user_id)));
    m.push((item.meta_key.clone(), item.meta_value.clone()));
    m.push((String::from_str("amount_cents"), i64_to_string(item.amount_cents as i64)));
    assert(pairs_view(m@) =~= purchase_metadata_spec(user_id, *item));
    m
}

/// The customer whose billing portal opens, or not found when the user
/// never reached checkout
pub fn portal_customer(customer: Option<StripeCustomer>) -> (r: Result<String, ServiceError>)
    ensures
        customer matches Some(c) ==> (r matches Ok(id) && id@ == c.stripe_customer_id@),
        customer is None ==> (r matches Err(ServiceError::NotFound(m)) && m@ == "No billing account for this user"@),
{
    match customer {
        Some(c) => Ok(c.stripe_customer_id),
        None => Err(ServiceError::NotFound(String::from_str("No billing account for this user"))),
    }
}

/// The summary of a subscription row.
pub open spec fn subscription_info_ok(s: Subscription, i: SubscriptionInfo) -> bool {
    &&& i.tier_id == s.tier_id
    &&& i.tier_level == s.tier_level
    &&& i.status@ == s.status@
    &&& i.cancel_at_period_end == s.cancel_at_period_end
    &&& i.current_period_end == s.current_period_end
}

/// The summary of a purchase row.
pub open spec fn purchase_info(p: Purchase) -> PurchaseInfo {
    PurchaseInfo {
        post_id: p.post_id,
        series_id: p.series_id,
        amount_cents: p.amount_cents,
        created_at: Some(p.created_at),
    }
}

/// The summaries of the paid purchases among `ps`, in order.
pub open spec fn paid_purchase_infos(ps: Seq<Purchase>) -> Seq<PurchaseInfo>
    decreases ps.len(),
{
    if ps.len() == 0 {
        Seq::empty()
    } else {
        let rest = paid_purchase_infos(ps.drop_last());
        if status_is_paid(ps.last().status@) {
            rest.push(purchase_info(ps.last()))
        } else {
            rest
        }
    }
}

/// `s` is the subscription row the billing summary reports among a fan's
/// rows: none when there are none; else one of them, active or trialing
/// when any is, and among those (or, when none is, among all) one updated
/// last.
pub open spec fn billing_subscription_ok(rows: Seq<Subscription>, s: Option<Subscription>) -> bool {
    match s {
        None => rows.len() == 0,
        Some(sub) => {
            &&& rows.contains(sub)
            &&& if exists|i: int| 0 <= i < rows.len() && status_grants_access(#[trigger] rows[i].status@) {
                &&& status_grants_access(sub.status@)
                &&& forall|i: int| 0 <= i < rows.len() && status_grants_access(#[trigger] rows[i].status@)
                        ==> rows[i].updated_at <= sub.updated_at
            } else {
                forall|i: int| 0 <= i < rows.len() ==> #[trigger] rows[i].updated_at <= sub.updated_at
            }
        },
    }
}

/// The subscription row the billing summary reports: the active (or
/// trialing) one if there is one, else the most recent
pub fn billing_subscription(rows: Vec<Subscription>) -> (s: Option<Subscription>)
    ensures
        billing_subscription_ok(rows@, s),
{
    let mut rows = rows;
    let ghost all = rows@;
    let mut best_active: Option<usize> = None;
    let mut best_any: Option<usize> = None;
    let mut i: usize = 0;
    while i < rows.len()
        invariant
            rows@ == all,
            i <= rows.len(),
            best_any is None <==> i == 0,
            best_any matches Some(k) ==> k < i && forall|j: int| 0 <= j < i ==> #[trigger] all[j].updated_at <= all[k as int].updated_at,
            best_active matches Some(k) ==> k < i && status_grants_access(all[k as int].status@)
                && forall|j: int| 0 <= j < i && status_grants_access(#[trigger] all[j].status@) ==> all[j].updated_at <= all[k as int].updated_at,
            best_active is None ==> forall|j: int| 0 <= j < i ==> !status_grants_access(#[trigger] all[j].status@),
        decreases rows.len() - i,
    {
        if rows[i].grants_access() {
            match best_active {
                Some(k) => {
                    if rows[i].updated_at > rows[k].updated_at {
                        best_active = Some(i);
                    }
                },
                None => {
                    best_active = Some(i);
                },
            }
        }
        match best_any {
            Some(k) => {
                if rows[i].updated_at > rows[k].updated_at {
                    best_any = Some(i);
                }
            },
            None => {
                best_any = Some(i);
            },
        }
        i = i + 1;
    }
    let pick = match best_active {
        Some(k) => Some(k),
        None => best_any,
    };
    match pick {
        Some(k) => {
            let sub = rows.remove(k);
            assert(all[k as int] == sub);
            Some(sub)
        },
        None => None,
    }
}

/// A fan's billing summary from the subscription row to report and their
/// purchase rows: the paid purchases, in order
pub fn billing_me_response(subscription: Option<Subscription>, purchases: Vec<Purchase>) -> (r: BillingMeResponse)
    ensures
        subscription is None <==> r.subscription is None,
        subscription matches Some(s) ==> subscription_info_ok(s, r.subscription->0),
        r.purchases@ == paid_purchase_infos(purchases@),
{
    let info = match subscription {
        Some(s) => Some(SubscriptionInfo {
            tier_id: s.tier_id,
            tier_level: s.tier_level,
            status: s.status,
            cancel_at_period_end: s.cancel_at_period_end,
            current_period_end: s.current_period_end,
        }),
        None => None,
    };
    let mut out: Vec<PurchaseInfo> = Vec::new();
    let mut i: usize = 0;
    while i < purchases.len()
        invariant
            i <= purchases.len(),
            out@ == paid_purchase_infos(purchases@.take(i as int)),
        decreases purchases.len() - i,
    {
        let p = &purchases[i];
        assert(purchases@.take(i + 1).drop_last() =~= purchases@.take(i as int));
        assert(purchases@.take(i + 1).last() == *p);
        if p.is_paid() {
            out.push(PurchaseInfo {
                post_id: p.post_id,
                series_id: p.series_id,
                amount_cents: p.amount_cents,
                created_at: Some(p.created_at),
            });
        }
        i = i + 1;
    }
    assert(purchases@.take(purchases@.len() as int) =~= purchases@);
    BillingMeResponse { subscription: info, purchases: out }
}

/// The billing summary lists exactly what was bought: every paid purchase
/// row appears with the post or series it bought, its amount and its time,
/// and every listed purchase is such a row.
pub proof fn lemma_billing_lists_what_was_bought(ps: Seq<Purchase>)
    ensures
        forall|i: int| 0 <= i < ps.len() && status_is_paid(#[trigger] ps[i].status@) ==>
            exists|j: int| 0 <= j < paid_purchase_infos(ps).len() && {
                let info = #[trigger] paid_purchase_infos(ps)[j];
                &&& info.post_id == ps[i].post_id
                &&& info.series_id == ps[i].series_id
                &&& info.amount_cents == ps[i].amount_cents
                &&& info.created_at == Some(ps[i].created_at)
            },
        forall|j: int| 0 <= j < paid_purchase_infos(ps).len() ==>
            exists|i: int| 0 <= i < ps.len() && status_is_paid(#[trigger] ps[i].status@) && {
                let info = #[trigger] paid_purchase_infos(ps)[j];
                &&& info.post_id == ps[i].post_id
                &&& info.series_id == ps[i].series_id
                &&& info.amount_cents == ps[i].amount_cents
                &&& info.created_at == Some(ps[i].created_at)
            },
    decreases ps.len(),
{
    if ps.len() > 0 {
        let rest = ps.drop_last();
        lemma_billing_lists_what_was_bought(rest);
        let infos = paid_purchase_infos(ps);
        let before = paid_purchase_infos(rest);
        assert forall|i: int| 0 <= i < ps.len() && status_is_paid(#[trigger] ps[i].status@) implies
            exists|j: int| 0 <= j < infos.len() && {
                let info = #[trigger] infos[j];
                &&& info.post_id == ps[i].post_id
                &&& info.series_id == ps[i].series_id
                &&& info.amount_cents == ps[i].amount_cents
                &&& info.created_at == Some(ps[i].created_at)
            } by {
            if i == ps.len() - 1 {
                let j = infos.len() - 1;
                assert(infos[j] == purchase_info(ps.last()));
            } else {
                assert(ps[i] == rest[i]);
                assert(status_is_paid(rest[i].status@));
                let j = choose|j: int| 0 <= j < before.len() && {
                    let info = #[trigger] before[j];
                    &&& info.post_id == rest[i].post_id
                    &&& info.series_id == rest[i].series_id
                    &&& info.amount_cents == rest[i].amount_cents
                    &&& info.created_at == Some(rest[i].created_at)
                };
                assert(infos[j] == before[j]);
            }
        }
        assert forall|j: int| 0 <= j < infos.len() implies
            exists|i: int| 0 <= i < ps.len() && status_is_paid(#[trigger] ps[i].status@) && {
                let info = #[trigger] infos[j];
                &&& info.post_id == ps[i].post_id
                &&& info.series_id == ps[i].series_id
                &&& info.amount_cents == ps[i].amount_cents
                &&& info.created_at == Some(ps[i].created_at)
            } by {
            if j < before.len() {
                assert(infos[j] == before[j]);
                let i = choose|i: int| 0 <= i < rest.len() && status_is_paid(#[trigger] rest[i].status@) && {
                    let info = #[trigger] before[j];
                    &&& info.post_id == rest[i].post_id
                    &&& info.series_id == rest[i].series_id
                    &&& info.amount_cents == rest[i].amount_cents
                    &&& info.created_at == Some(rest[i].created_at)
                };
                assert(ps[i] == rest[i]);
            } else {
                let i = ps.len() - 1;
                assert(infos[j] == purchase_info(ps.last()));
                assert(status_is_paid(ps[i].status@));
            }
        }
    }
}

/// How a purchase gets its Stripe price
#[derive(Debug, Clone)]
pub enum PriceStep {
    /// The item already has a price: use it
    Reuse(String),
    /// Mint a price first, then store its id on the item
    Mint(PriceMint),
}

/// The Stripe price of a sale: the item's own when it has one, else a
/// one-off price of the item's amount in the site's currency, for a new
/// product named after the item
pub fn purchase_price_step(item: &SellableItem) -> (s: PriceStep)
    ensures
        match item.stripe_price_id {
            Some(p) => s matches PriceStep::Reuse(q) && q@ == p@,
            None => s matches PriceStep::Mint(m) && {
                &&& m.product_name@ == item.name@
                &&& m.amount_cents == item.amount_cents
                &&& m.currency@ == CURRENCY@
                &&& !m.recurring_monthly
            },
        },
{
    match &item.stripe_price_id {
        Some(p) => PriceStep::Reuse(p.clone()),
        None => PriceStep::Mint(PriceMint {
            product_name: item.name.clone(),
            amount_cents: item.amount_cents,
            currency: String::from_str(CURRENCY),
            recurring_monthly: false,
        }),
    }
}

} // verus!
