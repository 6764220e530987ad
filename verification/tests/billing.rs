use patron::errors::ServiceError;
use patron::handlers::billing::{
    billing_me_response, billing_subscription, purchase_price_step, cancel_url, frontend_url, portal_customer, portal_return_url, purchase_metadata,
    purchase_target, require_stripe, sellable_post, sellable_series, subscription_checkout, success_url,
    PriceStep, PurchaseTarget,
};
use patron::handlers::stripe_webhook::{subscription_action, StripeEventObject, WebhookAction};
use patron::models::billing::{Purchase, PurchaseRequest, StripeCustomer, Subscription};
use patron::models::posts::{Post, PostKind};
use patron::models::series::Series;
use patron::models::tiers::Tier;
use patron::services::stripe::StripeService;

const USER: u128 = 0xa1b2c3d4_5e6f_7890_abcd_ef1234567890;

fn tier(price: Option<&str>) -> Tier {
    Tier {
        id: 0x11111111_2222_3333_4444_555555555555,
        name: "Silver".to_owned(),
        description: None,
        level: 2,
        price_cents: 1500,
        currency: "usd".to_owned(),
        stripe_product_id: Some("prod_1".to_owned()),
        stripe_price_id: price.map(str::to_owned),
        is_active: true,
        created_at: 0,
        updated_at: 0,
    }
}

fn post(price: Option<i32>) -> Post {
    Post {
        id: 0xd290f1ee_6c54_4b01_90e6_d701748f0851,
        series_id: 1,
        title: "Episode 1".to_owned(),
        content: "c".to_owned(),
        slug: "ep-1".to_owned(),
        number: 1,
        is_published: Some(true),
        thumbnail_url: None,
        audio_file_id: None,
        video_file_id: None,
        created_at: None,
        updated_at: None,
        deleted_at: None,
        kind: PostKind::Video,
        min_tier_level: None,
        price_cents: price,
        stripe_price_id: Some("price_p".to_owned()),
        free_at: None,
        image_file_ids: None,
    }
}

fn series(price: Option<i32>) -> Series {
    Series {
        id: 0xe5f6a7b8_9012_3456_ef01_345678901234,
        user_id: 1,
        title: "Season 1".to_owned(),
        description: None,
        slug: "s1".to_owned(),
        category: None,
        cover_image_url: None,
        created_at: None,
        updated_at: None,
        deleted_at: None,
        price_cents: price,
        stripe_price_id: None,
        min_tier_level: None,
        is_feed: false,
    }
}

#[test]
fn redirect_urls() {
    assert_eq!(frontend_url(None), "http://localhost:5173");
    let f = frontend_url(Some("https://site.example".to_owned()));
    assert_eq!(success_url(&f), "https://site.example/billing/success");
    assert_eq!(cancel_url(&f), "https://site.example/billing/cancel");
    assert_eq!(portal_return_url(&f), "https://site.example/settings");
}

#[test]
fn stripe_must_be_configured() {
    assert!(matches!(require_stripe(None), Err(ServiceError::Config(m)) if m == "Stripe is not configured"));
    let s = StripeService::from_env(Some("sk".to_owned()), None).unwrap();
    assert!(require_stripe(Some(&s)).is_ok());
}

#[test]
fn subscription_checkout_metadata() {
    let c = subscription_checkout(&tier(Some("price_1")), USER).unwrap();
    assert_eq!(c.price_id, "price_1");
    assert_eq!(
        c.metadata,
        vec![
            ("user_id".to_owned(), "a1b2c3d4-5e6f-7890-abcd-ef1234567890".to_owned()),
            ("tier_id".to_owned(), "11111111-2222-3333-4444-555555555555".to_owned()),
            ("tier_level".to_owned(), "2".to_owned()),
        ]
    );
    assert_eq!(
        subscription_checkout(&tier(None), USER).err(),
        Some(ServiceError::Config("Tier has no Stripe price".to_owned()))
    );
}

#[test]
fn checkout_metadata_reads_back_in_the_webhook() {
    let t = tier(Some("price_1"));
    let c = subscription_checkout(&t, USER).unwrap();
    let object = StripeEventObject {
        id: Some("sub_1".to_owned()),
        mode: None,
        status: Some("active".to_owned()),
        cancel_at_period_end: None,
        current_period_end: None,
        amount_total: None,
        payment_intent: None,
        metadata_user_id: Some(c.metadata[0].1.clone()),
        metadata_tier_id: Some(c.metadata[1].1.clone()),
        metadata_tier_level: Some(c.metadata[2].1.clone()),
        metadata_post_id: None,
        metadata_series_id: None,
    };
    match subscription_action(&object, 1, 0) {
        WebhookAction::UpsertSubscription(row) => {
            assert_eq!((row.user_id, row.tier_id, row.tier_level), (USER, Some(t.id), t.level));
        },
        other => panic!("unexpected {other:?}"),
    }
}

#[test]
fn purchase_needs_exactly_one_item() {
    assert_eq!(purchase_target(&PurchaseRequest { post_id: Some(1), series_id: None }), Ok(PurchaseTarget::Post(1)));
    assert_eq!(purchase_target(&PurchaseRequest { post_id: None, series_id: Some(2) }), Ok(PurchaseTarget::Series(2)));
    for r in [PurchaseRequest { post_id: Some(1), series_id: Some(2) }, PurchaseRequest { post_id: None, series_id: None }] {
        assert_eq!(
            purchase_target(&r),
            Err(ServiceError::BadRequest("Provide exactly one of postId or seriesId".to_owned()))
        );
    }
}

#[test]
fn sellable_items() {
    let item = sellable_post(post(Some(500))).unwrap();
    assert_eq!(item.name, "Episode 1");
    assert_eq!(item.amount_cents, 500);
    assert_eq!(item.stripe_price_id.as_deref(), Some("price_p"));
    assert_eq!(item.meta_key, "post_id");
    assert_eq!(item.meta_value, "d290f1ee-6c54-4b01-90e6-d701748f0851");
    assert_eq!(
        purchase_metadata(USER, &item),
        vec![
            ("user_id".to_owned(), "a1b2c3d4-5e6f-7890-abcd-ef1234567890".to_owned()),
            ("post_id".to_owned(), "d290f1ee-6c54-4b01-90e6-d701748f0851".to_owned()),
            ("amount_cents".to_owned(), "500".to_owned()),
        ]
    );
    assert_eq!(
        sellable_post(post(None)).err(),
        Some(ServiceError::BadRequest("This post is not purchasable".to_owned()))
    );
    let bundle = sellable_series(series(Some(2000))).unwrap();
    assert_eq!((bundle.meta_key.as_str(), bundle.meta_value.as_str()), ("series_id", "e5f6a7b8-9012-3456-ef01-345678901234"));
    assert_eq!(bundle.stripe_price_id, None);
    assert_eq!(
        sellable_series(series(None)).err(),
        Some(ServiceError::BadRequest("This series is not purchasable".to_owned()))
    );
}

#[test]
fn portal_needs_a_customer() {
    let c = StripeCustomer { user_id: USER, stripe_customer_id: "cus_9".to_owned(), created_at: 0 };
    assert_eq!(portal_customer(Some(c)), Ok("cus_9".to_owned()));
    assert_eq!(portal_customer(None), Err(ServiceError::NotFound("No billing account for this user".to_owned())));
}

#[test]
fn billing_summary() {
    let sub = Subscription {
        id: 1,
        user_id: USER,
        tier_id: Some(4),
        tier_level: 2,
        stripe_subscription_id: "sub".to_owned(),
        status: "past_due".to_owned(),
        current_period_end: Some(10),
        cancel_at_period_end: true,
        created_at: 0,
        updated_at: 0,
    };
    let p = Purchase {
        id: 2,
        user_id: USER,
        post_id: Some(7),
        series_id: None,
        stripe_checkout_session_id: None,
        stripe_payment_intent_id: None,
        amount_cents: Some(300),
        status: "paid".to_owned(),
        created_at: 42,
    };
    let refunded = Purchase { id: 3, status: "refunded".to_owned(), ..p.clone() };
    let r = billing_me_response(Some(sub), vec![refunded, p]);
    let info = r.subscription.unwrap();
    assert_eq!((info.tier_id, info.tier_level, info.status.as_str(), info.cancel_at_period_end, info.current_period_end),
        (Some(4), 2, "past_due", true, Some(10)));
    assert_eq!(r.purchases.len(), 1);
    assert_eq!((r.purchases[0].post_id, r.purchases[0].amount_cents, r.purchases[0].created_at), (Some(7), Some(300), Some(42)));
    assert!(billing_me_response(None, vec![]).subscription.is_none());
}

fn sub_row(id: u128, status: &str, updated_at: i64) -> Subscription {
    Subscription {
        id,
        user_id: USER,
        tier_id: None,
        tier_level: 1,
        stripe_subscription_id: format!("sub_{id}"),
        status: status.to_owned(),
        current_period_end: None,
        cancel_at_period_end: false,
        created_at: 0,
        updated_at,
    }
}

#[test]
fn billing_reports_active_subscription_first() {
    let rows = vec![sub_row(1, "canceled", 50), sub_row(2, "active", 10), sub_row(3, "trialing", 20), sub_row(4, "past_due", 90)];
    assert_eq!(billing_subscription(rows).map(|s| s.id), Some(3));
    let rows = vec![sub_row(1, "canceled", 50), sub_row(2, "past_due", 90), sub_row(3, "incomplete", 20)];
    assert_eq!(billing_subscription(rows).map(|s| s.id), Some(2));
    assert!(billing_subscription(vec![]).is_none());
}

#[test]
fn purchase_price_is_reused_or_minted() {
    let item = sellable_post(post(Some(250))).unwrap();
    assert!(matches!(purchase_price_step(&item), PriceStep::Reuse(p) if p == "price_p"));
    let item = sellable_post(Post { stripe_price_id: None, ..post(Some(250)) }).unwrap();
    match purchase_price_step(&item) {
        PriceStep::Mint(m) => assert_eq!(
            (m.product_name.as_str(), m.amount_cents, m.currency.as_str(), m.recurring_monthly),
            (item.name.as_str(), 250, "usd", false)
        ),
        other => panic!("unexpected {other:?}"),
    }
}
