//! Entitlement checks: the single source of truth for who may access a post.
//!
//! Rule: a post is accessible iff it is free (no gate, or rolled free via
//! `free_at`), OR the user holds an active subscription at >= the post's
//! minimum tier level, OR the user purchased the post, OR the user purchased
//! the post's series. The creator always has access.

use vstd::prelude::*;
use crate::models::posts::Post;
use crate::models::billing::{Subscription, Purchase, status_grants_access, status_is_paid};
use crate::clock::now_micros;

verus! {

/// Why access was granted, surfaced to the client for UI states
#[derive(Debug, Clone, Copy, PartialEq, Eq, Structural)]
pub enum AccessReason {
    /// Post has no gate or has rolled free
    Free,
    /// Active subscription at a sufficient tier
    Subscription,
    /// One-off purchase of the post
    Purchase,
    /// One-off purchase of the post's series
    Series,
    /// The requester is the site's creator
    Creator,
}

/// The outcome of an entitlement check for one post
#[derive(Debug, Clone, Copy, PartialEq, Eq, Structural)]
pub struct AccessDecision {
    /// Whether access is granted
    pub granted: bool,
    /// Why access was granted (None when denied)
    pub reason: Option<AccessReason>,
}

/// A user's entitlement context, loaded once and reused across posts
#[derive(Debug, Clone)]
pub struct UserEntitlements {
    /// Highest active subscription tier level, if any
    pub sub_tier_level: Option<i32>,
    /// Post ids owned via one-off purchase
    pub owned_post_ids: Vec<u128>,
    /// Series ids owned via one-off purchase
    pub owned_series_ids: Vec<u128>,
    /// Whether the user is the creator
    pub is_creator: bool,
}

/// The entitlement context of an anonymous visitor: nothing owned, no
/// subscription, not the creator.
pub open spec fn is_empty_context(e: UserEntitlements) -> bool {
    &&& e.sub_tier_level is None
    &&& e.owned_post_ids@.len() == 0
    &&& e.owned_series_ids@.len() == 0
    &&& !e.is_creator
}

impl Default for UserEntitlements {
    fn default() -> (e: Self)
        ensures
            is_empty_context(e),
    {
        UserEntitlements {
            sub_tier_level: None,
            owned_post_ids: Vec::new(),
            owned_series_ids: Vec::new(),
            is_creator: false,
        }
    }
}

/// The post carries a gate: a minimum tier or a price.
pub open spec fn has_gate(post: Post) -> bool {
    post.min_tier_level is Some || post.price_cents is Some
}

/// The post's scheduled free time has arrived at `now`.
pub open spec fn rolled_free(post: Post, now: i64) -> bool {
    post.free_at matches Some(t) && t <= now
}

/// The post is free to everyone at `now`.
pub open spec fn is_free_at(post: Post, now: i64) -> bool {
    !has_gate(post) || rolled_free(post, now)
}

/// The subscription level reaches the post's minimum tier.
pub open spec fn subscription_covers(level: Option<i32>, post: Post) -> bool {
    &&& level is Some
    &&& post.min_tier_level is Some
    &&& level->0 >= post.min_tier_level->0
}

/// The access decision for a post at time `now`, in the order the checks
/// are made: creator, free, subscription, purchase of the post, purchase of
/// its series, else denied.
pub open spec fn access_decision(e: UserEntitlements, post: Post, now: i64) -> AccessDecision {
    if e.is_creator {
        AccessDecision { granted: true, reason: Some(AccessReason::Creator) }
    } else if is_free_at(post, now) {
        AccessDecision { granted: true, reason: Some(AccessReason::Free) }
    } else if subscription_covers(e.sub_tier_level, post) {
        AccessDecision { granted: true, reason: Some(AccessReason::Subscription) }
    } else if e.owned_post_ids@.contains(post.id) {
        AccessDecision { granted: true, reason: Some(AccessReason::Purchase) }
    } else if e.owned_series_ids@.contains(post.series_id) {
        AccessDecision { granted: true, reason: Some(AccessReason::Series) }
    } else {
        AccessDecision { granted: false, reason: None }
    }
}

/// Whether `id` occurs in `ids`
pub fn contains_id(ids: &Vec<u128>, id: u128) -> (found: bool)
    ensures
        found == ids@.contains(id),
{
    let mut i: usize = 0;
    while i < ids.len()
        invariant
            i <= ids.len(),
            forall|j: int| 0 <= j < i ==> ids@[j] != id,
        decreases ids.len() - i,
    {
        if ids[i] == id {
            assert(ids@[i as int] == id);
            return true;
        }
        i = i + 1;
    }
    false
}

/// Decide access to one post at time `now` (microseconds since the epoch)
pub fn can_access_post_at(entitlements: &UserEntitlements, post: &Post, now: i64) -> (d: AccessDecision)
    ensures
        d == access_decision(*entitlements, *post, now),
{
    if entitlements.is_creator {
        return AccessDecision { granted: true, reason: Some(AccessReason::Creator) };
    }
    let rolled = match post.free_at {
        Some(t) => t <= now,
        None => false,
    };
    let gated = post.min_tier_level.is_some() || post.price_cents.is_some();
    if !gated || rolled {
        return AccessDecision { granted: true, reason: Some(AccessReason::Free) };
    }
    match (entitlements.sub_tier_level, post.min_tier_level) {
        (Some(user_level), Some(required)) => {
            if user_level >= required {
                return AccessDecision { granted: true, reason: Some(AccessReason::Subscription) };
            }
        },
        _ => {},
    }
    if contains_id(&entitlements.owned_post_ids, post.id) {
        return AccessDecision { granted: true, reason: Some(AccessReason::Purchase) };
    }
    if contains_id(&entitlements.owned_series_ids, post.series_id) {
        return AccessDecision { granted: true, reason: Some(AccessReason::Series) };
    }
    AccessDecision { granted: false, reason: None }
}

/// Decide access to one post now, reading the clock once
pub fn can_access_post(entitlements: &UserEntitlements, post: &Post) -> (d: AccessDecision)
    ensures
        exists|now: i64| d == access_decision(*entitlements, *post, now),
{
    let now = now_micros();
    can_access_post_at(entitlements, post, now)
}


/// A subscription row counts for `user`: it is theirs and its status grants access.
pub open spec fn counts_subscription(s: Subscription, user: u128) -> bool {
    s.user_id == user && status_grants_access(s.status@)
}

/// A purchase row counts for `user`: it is theirs and it is paid.
pub open spec fn counts_purchase(p: Purchase, user: u128) -> bool {
    p.user_id == user && status_is_paid(p.status@)
}

/// The post ids of the purchases that count for `user`, in row order.
pub open spec fn owned_posts(rows: Seq<Purchase>, user: u128) -> Seq<u128>
    decreases rows.len(),
{
    if rows.len() == 0 {
        Seq::empty()
    } else {
        let rest = owned_posts(rows.drop_last(), user);
        let p = rows.last();
        if counts_purchase(p, user) && p.post_id is Some {
            rest.push(p.post_id->0)
        } else {
            rest
        }
    }
}

/// The series ids of the purchases that count for `user`, in row order.
pub open spec fn owned_series(rows: Seq<Purchase>, user: u128) -> Seq<u128>
    decreases rows.len(),
{
    if rows.len() == 0 {
        Seq::empty()
    } else {
        let rest = owned_series(rows.drop_last(), user);
        let p = rows.last();
        if counts_purchase(p, user) && p.series_id is Some {
            rest.push(p.series_id->0)
        } else {
            rest
        }
    }
}

/// A paid purchase of a post by `user` makes the post one of theirs.
pub proof fn lemma_paid_post_is_owned(rows: Seq<Purchase>, user: u128, i: int)
    requires
        0 <= i < rows.len(),
        counts_purchase(rows[i], user),
        rows[i].post_id is Some,
    ensures
        owned_posts(rows, user).contains(rows[i].post_id->0),
    decreases rows.len(),
{
    let prev = owned_posts(rows.drop_last(), user);
    if i == rows.len() - 1 {
        assert(owned_posts(rows, user) == prev.push(rows[i].post_id->0));
        assert(owned_posts(rows, user)[prev.len() as int] == rows[i].post_id->0);
    } else {
        assert(rows.drop_last()[i] == rows[i]);
        lemma_paid_post_is_owned(rows.drop_last(), user, i);
        let k = choose|k: int| 0 <= k < prev.len() && prev[k] == rows[i].post_id->0;
        let all = owned_posts(rows, user);
        assert(all == prev || all == prev.push(rows.last().post_id->0));
        assert(all[k] == prev[k]);
    }
}

/// A paid purchase of a series by `user` makes the series one of theirs.
pub proof fn lemma_paid_series_is_owned(rows: Seq<Purchase>, user: u128, i: int)
    requires
        0 <= i < rows.len(),
        counts_purchase(rows[i], user),
        rows[i].series_id is Some,
    ensures
        owned_series(rows, user).contains(rows[i].series_id->0),
    decreases rows.len(),
{
    let prev = owned_series(rows.drop_last(), user);
    if i == rows.len() - 1 {
        assert(owned_series(rows, user) == prev.push(rows[i].series_id->0));
        assert(owned_series(rows, user)[prev.len() as int] == rows[i].series_id->0);
    } else {
        assert(rows.drop_last()[i] == rows[i]);
        lemma_paid_series_is_owned(rows.drop_last(), user, i);
        let k = choose|k: int| 0 <= k < prev.len() && prev[k] == rows[i].series_id->0;
        let all = owned_series(rows, user);
        assert(all == prev || all == prev.push(rows.last().series_id->0));
        assert(all[k] == prev[k]);
    }
}

/// `level` is the highest tier level among the subscriptions that count for
/// `user`, or None when none counts.
pub open spec fn is_highest_active_level(subs: Seq<Subscription>, user: u128, level: Option<i32>) -> bool {
    match level {
        None => forall|i: int| 0 <= i < subs.len() ==> !counts_subscription(#[trigger] subs[i], user),
        Some(l) => {
            &&& exists|i: int| 0 <= i < subs.len() && counts_subscription(#[trigger] subs[i], user) && subs[i].tier_level == l
            &&& forall|i: int| 0 <= i < subs.len() && counts_subscription(#[trigger] subs[i], user) ==> subs[i].tier_level <= l
        },
    }
}

/// Build a user's entitlement context from their subscription and purchase
/// rows, or the empty context for anonymous visitors. Subscriptions count
/// when active or trialing, purchases when paid; rows of other users are
/// ignored.
pub fn load_user_entitlements(
    user_id: Option<u128>,
    is_creator: bool,
    subscriptions: &Vec<Subscription>,
    purchases: &Vec<Purchase>,
) -> (e: UserEntitlements)
    ensures
        user_id is None ==> is_empty_context(e),
        user_id matches Some(u) ==> {
            &&& is_highest_active_level(subscriptions@, u, e.sub_tier_level)
            &&& e.owned_post_ids@ == owned_posts(purchases@, u)
            &&& e.owned_series_ids@ == owned_series(purchases@, u)
            &&& e.is_creator == is_creator
        },
{
    let user = match user_id {
        None => return UserEntitlements::default(),
        Some(u) => u,
    };

    let mut level: Option<i32> = None;
    let mut i: usize = 0;
    while i < subscriptions.len()
        invariant
            i <= subscriptions.len(),
            is_highest_active_level(subscriptions@.take(i as int), user, level),
        decreases subscriptions.len() - i,
    {
        let s = &subscriptions[i];
        let ghost prefix = subscriptions@.take(i as int);
        let ghost next = subscriptions@.take(i + 1);
        assert(next =~= prefix.push(*s));
        if s.user_id == user && s.grants_access() {
            let new_level = match level {
                None => s.tier_level,
                Some(m) => if s.tier_level > m { s.tier_level } else { m },
            };
            proof {
                assert(next[i as int] == *s);
                if let Some(m) = level {
                    let w = choose|k: int| 0 <= k < prefix.len() && counts_subscription(#[trigger] prefix[k], user) && prefix[k].tier_level == m;
                    assert(next[w] == prefix[w]);
                }
                assert forall|k: int| 0 <= k < next.len() && counts_subscription(#[trigger] next[k], user)
                    implies next[k].tier_level <= new_level by {
                    if k < i {
                        assert(next[k] == prefix[k]);
                    }
                }
            }
            level = Some(new_level);
        } else {
            proof {
                match level {
                    None => {
                        assert forall|k: int| 0 <= k < next.len() implies !counts_subscription(#[trigger] next[k], user) by {
                            if k < i { assert(next[k] == prefix[k]); }
                        }
                    },
                    Some(m) => {
                        let w = choose|k: int| 0 <= k < prefix.len() && counts_subscription(#[trigger] prefix[k], user) && prefix[k].tier_level == m;
                        assert(next[w] == prefix[w]);
                        assert forall|k: int| 0 <= k < next.len() && counts_subscription(#[trigger] next[k], user)
                            implies next[k].tier_level <= m by {
                            if k < i { assert(next[k] == prefix[k]); }
                        }
                    },
                }
            }
        }
        i = i + 1;
    }
    assert(subscriptions@.take(subscriptions.len() as int) =~= subscriptions@);

    let mut owned_post_ids: Vec<u128> = Vec::new();
    let mut owned_series_ids: Vec<u128> = Vec::new();
    let mut j: usize = 0;
    while j < purchases.len()
        invariant
            j <= purchases.len(),
            owned_post_ids@ == owned_posts(purchases@.take(j as int), user),
            owned_series_ids@ == owned_series(purchases@.take(j as int), user),
        decreases purchases.len() - j,
    {
        let p = &purchases[j];
        let ghost next = purchases@.take(j + 1);
        assert(next.drop_last() =~= purchases@.take(j as int));
        assert(next.last() == *p);
        if p.user_id == user && p.is_paid() {
            if let Some(id) = p.post_id {
                owned_post_ids.push(id);
            }
            if let Some(id) = p.series_id {
                owned_series_ids.push(id);
            }
        }
        j = j + 1;
    }
    assert(purchases@.take(purchases.len() as int) =~= purchases@);

    UserEntitlements {
        sub_tier_level: level,
        owned_post_ids,
        owned_series_ids,
        is_creator,
    }
}


/// Access is granted exactly when the requester is the creator, or the post
/// is free or rolled free, or an active subscription reaches the post's
/// minimum tier, or the requester bought the post, or bought its series.
pub proof fn lemma_access_rule(e: UserEntitlements, post: Post, now: i64)
    ensures
        access_decision(e, post, now).granted <==> {
            ||| e.is_creator
            ||| is_free_at(post, now)
            ||| subscription_covers(e.sub_tier_level, post)
            ||| e.owned_post_ids@.contains(post.id)
            ||| e.owned_series_ids@.contains(post.series_id)
        },
        access_decision(e, post, now).granted <==> access_decision(e, post, now).reason is Some,
{
}

/// The creator may access every post, at every time.
pub proof fn lemma_creator_always_has_access(e: UserEntitlements, post: Post, now: i64)
    requires
        e.is_creator,
    ensures
        access_decision(e, post, now) == (AccessDecision { granted: true, reason: Some(AccessReason::Creator) }),
{
}

/// A post that is free (no gate, or rolled free) is open to every requester,
/// anonymous visitors included.
pub proof fn lemma_free_post_open_to_all(e: UserEntitlements, post: Post, now: i64)
    requires
        is_free_at(post, now),
    ensures
        access_decision(e, post, now).granted,
{
}

/// An anonymous visitor may access a post exactly when it is free or has
/// rolled free.
pub proof fn lemma_anonymous_sees_only_free(e: UserEntitlements, post: Post, now: i64)
    requires
        is_empty_context(e),
    ensures
        access_decision(e, post, now).granted <==> is_free_at(post, now),
{
}

/// `high` is a subscription level at least as high as `low` (no
/// subscription is the lowest).
pub open spec fn level_at_least(high: Option<i32>, low: Option<i32>) -> bool {
    low is None || (high is Some && high->0 >= low->0)
}

/// Higher tiers include everything lower tiers can access: raising the
/// subscription level, with the same purchases, never loses access.
pub proof fn lemma_higher_tier_includes_lower(low: UserEntitlements, high: UserEntitlements, post: Post, now: i64)
    requires
        level_at_least(high.sub_tier_level, low.sub_tier_level),
        high.owned_post_ids@ == low.owned_post_ids@,
        high.owned_series_ids@ == low.owned_series_ids@,
        high.is_creator == low.is_creator,
    ensures
        access_decision(low, post, now).granted ==> access_decision(high, post, now).granted,
{
}

/// Purchases are permanent: owning the post or its series grants access
/// whatever the subscription state, including none at all.
pub proof fn lemma_purchase_outlives_subscription(e: UserEntitlements, level: Option<i32>, post: Post, now: i64)
    requires
        e.owned_post_ids@.contains(post.id) || e.owned_series_ids@.contains(post.series_id),
    ensures
        access_decision(e, post, now).granted,
        access_decision(UserEntitlements { sub_tier_level: level, ..e }, post, now).granted,
{
}

/// A rolled-free post is not re-gated afterwards: access granted at one
/// time is still granted at any later time.
pub proof fn lemma_access_persists_over_time(e: UserEntitlements, post: Post, earlier: i64, later: i64)
    requires
        earlier <= later,
        access_decision(e, post, earlier).granted,
    ensures
        access_decision(e, post, later).granted,
{
}

} // verus!
