//! What the server reconciles at boot: the creator role and the creator's
//! hidden feed series.

use vstd::prelude::*;
use vstd::string::*;
use crate::models::series::Series;
use crate::text::{trim, trimmed};

verus! {

/// The email whose account should hold the creator role, from the value of
/// `CREATOR_EMAIL`; None (nothing to reconcile) when unset or blank
pub fn creator_email(configured: Option<String>) -> (r: Option<String>)
    ensures
        match configured {
            Some(e) => if trimmed(e@).len() == 0 { r is None } else { r matches Some(x) && x@ == e@ },
            None => r is None,
        },
{
    match configured {
        Some(e) => {
            if trim(e.as_str()).is_empty() {
                None
            } else {
                Some(e)
            }
        },
        None => None,
    }
}

/// Whether a boot that counts `existing_feeds` feed series of the creator
/// creates one.
pub open spec fn creates_feed(existing_feeds: int) -> bool {
    existing_feeds <= 0
}

/// The creator needs a feed series when they have none
pub fn needs_feed_series(existing_feeds: i64) -> (b: bool)
    ensures
        b == creates_feed(existing_feeds as int),
{
    existing_feeds <= 0
}

/// The number of feed series the creator has after a boot that counted
/// `existing_feeds`.
pub open spec fn feeds_after_boot(existing_feeds: int) -> int {
    if creates_feed(existing_feeds) { existing_feeds + 1 } else { existing_feeds }
}

/// The feed series is created at most once: after one boot the creator has
/// a feed, a second boot creates none, and together they add at most one.
pub proof fn lemma_feed_created_at_most_once(existing_feeds: int)
    requires
        existing_feeds >= 0,
    ensures
        feeds_after_boot(existing_feeds) >= 1,
        !creates_feed(feeds_after_boot(existing_feeds)),
        feeds_after_boot(feeds_after_boot(existing_feeds)) == feeds_after_boot(existing_feeds),
        feeds_after_boot(feeds_after_boot(existing_feeds)) <= existing_feeds + 1,
{
}

/// The creator's hidden feed series that holds standalone updates, stamped
/// with row id `id` and time `now`
pub fn feed_series(creator_id: u128, id: u128, now: i64) -> (s: Series)
    ensures
        s.id == id,
        s.user_id == creator_id,
        s.title@ == "Feed"@,
        s.slug@ == "feed"@,
        s.description is None,
        s.category is None,
        s.cover_image_url is None,
        s.created_at == Some(now),
        s.updated_at == Some(now),
        s.deleted_at is None,
        s.price_cents is None,
        s.stripe_price_id is None,
        s.min_tier_level is None,
        s.is_feed,
{
    Series {
        id,
        user_id: creator_id,
        title: String::from_str("Feed"),
        description: None,
        slug: String::from_str("feed"),
        category: None,
        cover_image_url: None,
        created_at: Some(now),
        updated_at: Some(now),
        deleted_at: None,
        price_cents: None,
        stripe_price_id: None,
        min_tier_level: None,
        is_feed: true,
    }
}

} // verus!
