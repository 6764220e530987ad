use patron::boot::{creator_email, feed_series, needs_feed_series};
use patron::errors::ServiceError;
use patron::handlers::engagement::{
    authorize_delete, can_delete, check_parent, comment_response, created_comment_response, like_state, new_comment,
    require_post_access, validate_comment,
};
use patron::handlers::site::{site_response, CreatorProfile};
use patron::handlers::tiers::{
    apply_tier_update, deactivation_result, new_tier, price_change, tier_mint_plan, tiers_response, validate_new_tier,
};
use patron::models::engagement::LikeStateResponse;
use patron::models::tiers::{CreateTierRequest, Tier, TierResponse, UpdateTierRequest};
use patron::services::entitlements::{AccessDecision, AccessReason};

fn tier(level: i32, active: bool) -> Tier {
    Tier {
        id: level as u128,
        name: format!("T{level}"),
        description: Some("perks".to_owned()),
        level,
        price_cents: 1000,
        currency: "usd".to_owned(),
        stripe_product_id: Some("prod".to_owned()),
        stripe_price_id: Some("price_old".to_owned()),
        is_active: active,
        created_at: 3,
        updated_at: 3,
    }
}

#[test]
fn tier_price_must_be_positive() {
    let body = |price| CreateTierRequest { name: "Gold".to_owned(), description: None, level: 3, price_cents: price };
    assert_eq!(validate_new_tier(&body(1)), Ok(()));
    assert_eq!(validate_new_tier(&body(0)), Err(ServiceError::BadRequest("Price must be positive".to_owned())));
    assert_eq!(validate_new_tier(&body(-5)), Err(ServiceError::BadRequest("Price must be positive".to_owned())));
    let t = new_tier(&body(1500), 9, 77, Some("prod_1".to_owned()), Some("price_1".to_owned()));
    assert_eq!((t.id, t.level, t.price_cents, t.currency.as_str(), t.is_active, t.created_at), (9, 3, 1500, "usd", true, 77));
}

#[test]
fn tiers_get_a_monthly_price_only_with_stripe() {
    let body = CreateTierRequest { name: "Gold".to_owned(), description: None, level: 3, price_cents: 900 };
    let m = tier_mint_plan(true, &body).unwrap();
    assert_eq!((m.product_name.as_str(), m.amount_cents, m.currency.as_str(), m.recurring_monthly), ("Gold", 900, "usd", true));
    assert!(tier_mint_plan(false, &body).is_none());
}

#[test]
fn price_change_only_when_the_amount_changes() {
    let t = tier(2, true);
    assert!(price_change(&t, None, true).is_none());
    assert!(price_change(&t, Some(1000), true).is_none());
    assert!(price_change(&t, Some(2000), false).is_none());
    let no_product = Tier { stripe_product_id: None, ..tier(2, true) };
    assert!(price_change(&no_product, Some(2000), true).is_none());
    let c = price_change(&t, Some(2000), true).unwrap();
    assert_eq!((c.product_id.as_str(), c.amount_cents, c.currency.as_str(), c.archive_price_id.as_deref()),
        ("prod", 2000, "usd", Some("price_old")));
}

#[test]
fn tier_update_replaces_given_fields() {
    let body = UpdateTierRequest { name: Some("Platinum".to_owned()), description: None, level: None, price_cents: Some(2000), is_active: Some(false) };
    let t = apply_tier_update(tier(2, true), &body, Some("price_new".to_owned()), 50);
    assert_eq!(t.name, "Platinum");
    assert_eq!(t.description.as_deref(), Some("perks"));
    assert_eq!((t.level, t.price_cents, t.is_active), (2, 2000, false));
    assert_eq!(t.stripe_price_id.as_deref(), Some("price_new"));
    assert_eq!((t.created_at, t.updated_at), (3, 50));
    let keep = apply_tier_update(tier(2, true), &UpdateTierRequest { name: None, description: None, level: None, price_cents: None, is_active: None }, None, 60);
    assert_eq!(keep.stripe_price_id.as_deref(), Some("price_old"));
}

#[test]
fn deleting_a_missing_tier_is_not_found() {
    assert_eq!(deactivation_result(1), Ok(()));
    assert_eq!(deactivation_result(0), Err(ServiceError::NotFound("Tier not found".to_owned())));
}

#[test]
fn public_tier_list_shows_active_tiers_only() {
    let all = vec![tier(1, true), tier(2, false), tier(3, true)];
    let public: Vec<i32> = tiers_response(all.clone(), true).0.iter().map(|t| t.level).collect();
    assert_eq!(public, vec![1, 3]);
    let creator: Vec<i32> = tiers_response(all, false).0.iter().map(|t| t.level).collect();
    assert_eq!(creator, vec![1, 2, 3]);
    let r = TierResponse::from(tier(4, true));
    assert_eq!((r.level, r.created_at, r.name.as_str()), (4, Some(3), "T4"));
}

#[test]
fn comments_need_post_access() {
    assert_eq!(require_post_access(AccessDecision { granted: true, reason: Some(AccessReason::Free) }), Ok(()));
    assert_eq!(
        require_post_access(AccessDecision { granted: false, reason: None }),
        Err(ServiceError::Forbidden("This post requires a subscription or purchase".to_owned()))
    );
}

#[test]
fn comment_length_is_checked_after_trimming() {
    assert_eq!(validate_comment("  Loved it!\n"), Ok("Loved it!".to_owned()));
    let err = Err(ServiceError::BadRequest("Comment must be between 1 and 5000 characters".to_owned()));
    assert_eq!(validate_comment("   "), err);
    assert_eq!(validate_comment(""), err);
    assert_eq!(validate_comment("\u{3000}\u{2003}\u{85}\t"), err);
    assert_eq!(validate_comment("\u{a0}hi\u{202f}"), Ok("hi".to_owned()));
    assert_eq!(validate_comment(&"é".repeat(5000)), Ok("é".repeat(5000)));
    assert_eq!(validate_comment(&"é".repeat(5001)), err);
}

#[test]
fn replies_need_an_existing_parent() {
    assert_eq!(check_parent(None, 0), Ok(()));
    assert_eq!(check_parent(Some(1), 1), Ok(()));
    assert_eq!(check_parent(Some(1), 0), Err(ServiceError::NotFound("Parent comment not found".to_owned())));
}

#[test]
fn only_author_or_creator_deletes() {
    assert!(can_delete(Some(1), false, 1));
    assert!(can_delete(None, true, 1));
    assert!(!can_delete(Some(2), false, 1));
    assert!(!can_delete(None, false, 1));
    let c = new_comment(10, 20, 1, None, "hi".to_owned(), 7);
    assert_eq!(authorize_delete(1, false, &c), Ok(()));
    assert_eq!(authorize_delete(3, true, &c), Ok(()));
    assert_eq!(
        authorize_delete(3, false, &c),
        Err(ServiceError::Forbidden("Only the author or the creator may delete a comment".to_owned()))
    );
}

#[test]
fn comment_responses() {
    let c = new_comment(10, 20, 1, Some(9), "hi".to_owned(), 7);
    let r = comment_response(c.clone(), Some("Jane".to_owned()), None, "creator", Some(2), false);
    assert_eq!((r.id, r.post_id, r.parent_id, r.content.as_str(), r.is_creator, r.can_delete, r.created_at),
        (10, 20, Some(9), "hi", true, false, Some(7)));
    let fan = comment_response(c.clone(), None, None, "fan", Some(1), false);
    assert!(!fan.is_creator && fan.can_delete);
    let mine = created_comment_response(c, Some("Jane".to_owned()), Some("a.png".to_owned()), false);
    assert!(mine.can_delete);
    assert_eq!(mine.author_avatar_url.as_deref(), Some("a.png"));
}

#[test]
fn like_state_for_requesters() {
    assert_eq!(like_state(12, Some(1), 1), LikeStateResponse { like_count: 12, liked_by_me: true });
    assert_eq!(like_state(12, Some(1), 0), LikeStateResponse { like_count: 12, liked_by_me: false });
    assert_eq!(like_state(3, None, 5), LikeStateResponse { like_count: 3, liked_by_me: false });
}

#[test]
fn creator_email_and_feed_series() {
    assert_eq!(creator_email(None), None);
    assert_eq!(creator_email(Some("  ".to_owned())), None);
    assert_eq!(creator_email(Some("me@example.com".to_owned())), Some("me@example.com".to_owned()));
    assert!(needs_feed_series(0));
    assert!(!needs_feed_series(1));
    let f = feed_series(4, 5, 6);
    assert_eq!((f.id, f.user_id, f.title.as_str(), f.slug.as_str(), f.is_feed, f.created_at), (5, 4, "Feed", "feed", true, Some(6)));
}

#[test]
fn site_carries_the_creator_profile() {
    let p = CreatorProfile { display_name: Some("Jane".to_owned()), avatar_url: None, banner: None, description: Some("bio".to_owned()) };
    assert_eq!(site_response(Some(p)).creator.unwrap().display_name.as_deref(), Some("Jane"));
    assert!(site_response(None).creator.is_none());
}
