use patron::models::billing::{Purchase, Subscription};
use patron::models::posts::{Post, PostKind};
use patron::services::entitlements::{
    can_access_post, can_access_post_at, load_user_entitlements, AccessDecision, AccessReason, UserEntitlements,
};

fn post(id: u128, series_id: u128, min_tier_level: Option<i32>, price_cents: Option<i32>, free_at: Option<i64>) -> Post {
    Post {
        id,
        series_id,
        title: "Chapter".to_owned(),
        content: "Full text".to_owned(),
        slug: "chapter".to_owned(),
        number: 1,
        is_published: Some(true),
        thumbnail_url: None,
        audio_file_id: None,
        video_file_id: None,
        created_at: Some(0),
        updated_at: None,
        deleted_at: None,
        kind: PostKind::Article,
        min_tier_level,
        price_cents,
        stripe_price_id: None,
        free_at,
        image_file_ids: None,
    }
}

fn ctx(level: Option<i32>, posts: Vec<u128>, series: Vec<u128>, creator: bool) -> UserEntitlements {
    UserEntitlements { sub_tier_level: level, owned_post_ids: posts, owned_series_ids: series, is_creator: creator }
}

fn granted(reason: AccessReason) -> AccessDecision {
    AccessDecision { granted: true, reason: Some(reason) }
}

const DENIED: AccessDecision = AccessDecision { granted: false, reason: None };

fn sub(user: u128, level: i32, status: &str) -> Subscription {
    Subscription {
        id: 1,
        user_id: user,
        tier_id: None,
        tier_level: level,
        stripe_subscription_id: "sub_1".to_owned(),
        status: status.to_owned(),
        current_period_end: None,
        cancel_at_period_end: false,
        created_at: 0,
        updated_at: 0,
    }
}

fn purchase(user: u128, post_id: Option<u128>, series_id: Option<u128>, status: &str) -> Purchase {
    Purchase {
        id: 9,
        user_id: user,
        post_id,
        series_id,
        stripe_checkout_session_id: None,
        stripe_payment_intent_id: None,
        amount_cents: Some(500),
        status: status.to_owned(),
        created_at: 0,
    }
}

#[test]
fn creator_sees_everything() {
    let p = post(1, 2, Some(3), Some(500), None);
    assert_eq!(can_access_post_at(&ctx(None, vec![], vec![], true), &p, 0), granted(AccessReason::Creator));
}

#[test]
fn ungated_post_is_free_for_anonymous() {
    let p = post(1, 2, None, None, None);
    assert_eq!(can_access_post_at(&UserEntitlements::default(), &p, 0), granted(AccessReason::Free));
}

#[test]
fn gated_post_locked_for_anonymous() {
    let p = post(1, 2, Some(1), None, None);
    assert_eq!(can_access_post_at(&UserEntitlements::default(), &p, 0), DENIED);
}

#[test]
fn rolling_paywall_opens_at_free_at_and_stays_open() {
    let p = post(1, 2, Some(2), Some(300), Some(1_000));
    let anon = UserEntitlements::default();
    assert_eq!(can_access_post_at(&anon, &p, 999), DENIED);
    assert_eq!(can_access_post_at(&anon, &p, 1_000), granted(AccessReason::Free));
    assert_eq!(can_access_post_at(&anon, &p, 5_000_000), granted(AccessReason::Free));
}

#[test]
fn subscription_level_must_reach_minimum() {
    let p = post(1, 2, Some(2), None, None);
    assert_eq!(can_access_post_at(&ctx(Some(1), vec![], vec![], false), &p, 0), DENIED);
    assert_eq!(can_access_post_at(&ctx(Some(2), vec![], vec![], false), &p, 0), granted(AccessReason::Subscription));
    assert_eq!(can_access_post_at(&ctx(Some(3), vec![], vec![], false), &p, 0), granted(AccessReason::Subscription));
}

#[test]
fn higher_tier_includes_lower_tier_posts() {
    for required in 0..5 {
        let p = post(1, 2, Some(required), None, None);
        for low in 0..5 {
            let lo = can_access_post_at(&ctx(Some(low), vec![], vec![], false), &p, 0).granted;
            let hi = can_access_post_at(&ctx(Some(low + 1), vec![], vec![], false), &p, 0).granted;
            assert!(!lo || hi);
        }
    }
}

#[test]
fn price_only_post_needs_purchase_not_subscription() {
    let p = post(1, 2, None, Some(500), None);
    assert_eq!(can_access_post_at(&ctx(Some(10), vec![], vec![], false), &p, 0), DENIED);
    assert_eq!(can_access_post_at(&ctx(None, vec![1], vec![], false), &p, 0), granted(AccessReason::Purchase));
}

#[test]
fn purchase_outlives_subscription() {
    let p = post(7, 2, Some(5), Some(500), None);
    assert_eq!(can_access_post_at(&ctx(None, vec![7], vec![], false), &p, 0), granted(AccessReason::Purchase));
    assert_eq!(can_access_post_at(&ctx(Some(1), vec![7], vec![], false), &p, 0), granted(AccessReason::Purchase));
}

#[test]
fn series_purchase_opens_posts_of_that_series_only() {
    let in_series = post(7, 40, Some(5), None, None);
    let other = post(8, 41, Some(5), None, None);
    let e = ctx(None, vec![], vec![40], false);
    assert_eq!(can_access_post_at(&e, &in_series, 0), granted(AccessReason::Series));
    assert_eq!(can_access_post_at(&e, &other, 0), DENIED);
}

#[test]
fn subscription_reason_comes_before_purchase() {
    let p = post(7, 2, Some(1), Some(500), None);
    assert_eq!(can_access_post_at(&ctx(Some(1), vec![7], vec![], false), &p, 0), granted(AccessReason::Subscription));
}

#[test]
fn can_access_post_reads_the_clock() {
    let long_ago = post(1, 2, Some(9), None, Some(0));
    assert_eq!(can_access_post(&UserEntitlements::default(), &long_ago), granted(AccessReason::Free));
    let far_future = post(1, 2, Some(9), None, Some(i64::MAX));
    assert_eq!(can_access_post(&UserEntitlements::default(), &far_future), DENIED);
}

#[test]
fn anonymous_context_is_empty() {
    let e = load_user_entitlements(None, true, &vec![sub(1, 3, "active")], &vec![purchase(1, Some(5), None, "paid")]);
    assert_eq!(e.sub_tier_level, None);
    assert!(e.owned_post_ids.is_empty());
    assert!(e.owned_series_ids.is_empty());
    assert!(!e.is_creator);
}

#[test]
fn highest_active_or_trialing_level_counts() {
    let subs = vec![sub(1, 2, "active"), sub(1, 5, "canceled"), sub(1, 3, "trialing"), sub(2, 9, "active"), sub(1, 1, "past_due")];
    let e = load_user_entitlements(Some(1), false, &subs, &vec![]);
    assert_eq!(e.sub_tier_level, Some(3));
    let none = load_user_entitlements(Some(1), false, &vec![sub(1, 5, "canceled")], &vec![]);
    assert_eq!(none.sub_tier_level, None);
}

#[test]
fn only_paid_purchases_of_the_user_are_owned() {
    let rows = vec![
        purchase(1, Some(10), None, "paid"),
        purchase(1, None, Some(20), "paid"),
        purchase(1, Some(11), None, "refunded"),
        purchase(2, Some(12), None, "paid"),
        purchase(1, Some(13), Some(21), "paid"),
    ];
    let e = load_user_entitlements(Some(1), true, &vec![], &rows);
    assert_eq!(e.owned_post_ids, vec![10, 13]);
    assert_eq!(e.owned_series_ids, vec![20, 21]);
    assert!(e.is_creator);
}

#[test]
fn grants_access_only_for_active_and_trialing() {
    assert!(sub(1, 1, "active").grants_access());
    assert!(sub(1, 1, "trialing").grants_access());
    assert!(!sub(1, 1, "past_due").grants_access());
    assert!(!sub(1, 1, "canceled").grants_access());
    assert!(!sub(1, 1, "Active").grants_access());
}
