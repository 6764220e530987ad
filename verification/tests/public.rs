use patron::handlers::public::{
    lookup_of, public_posts_at, public_series_list, to_public_post, to_public_post_at, Lookup, PublicPostsQuery,
};
use patron::models::posts::{post_kind_from_text, Post, PostKind};
use patron::models::series::{Series, SeriesListResponse, SeriesResponse};
use patron::services::entitlements::{AccessReason, UserEntitlements};

fn post(min: Option<i32>) -> Post {
    Post {
        id: 5,
        series_id: 6,
        title: "Gallery".to_owned(),
        content: "secret".to_owned(),
        slug: "gallery".to_owned(),
        number: 3,
        is_published: Some(true),
        thumbnail_url: Some("thumb.jpg".to_owned()),
        audio_file_id: Some(10),
        video_file_id: Some(11),
        created_at: Some(100),
        updated_at: None,
        deleted_at: None,
        kind: PostKind::Images,
        min_tier_level: min,
        price_cents: None,
        stripe_price_id: None,
        free_at: Some(1_000),
        image_file_ids: Some(vec![Some(1), None, Some(3)]),
    }
}

fn series(id: u128) -> Series {
    Series {
        id,
        user_id: 1,
        title: "S".to_owned(),
        description: Some("d".to_owned()),
        slug: "s".to_owned(),
        category: None,
        cover_image_url: None,
        created_at: Some(5),
        updated_at: Some(6),
        deleted_at: None,
        price_cents: Some(900),
        stripe_price_id: Some("price".to_owned()),
        min_tier_level: Some(1),
        is_feed: false,
    }
}

#[test]
fn entitled_requester_gets_full_post() {
    let e = UserEntitlements { sub_tier_level: Some(2), owned_post_ids: vec![], owned_series_ids: vec![], is_creator: false };
    let r = to_public_post_at(post(Some(2)), &e, 0);
    assert!(r.access.granted);
    assert_eq!(r.access.reason, Some(AccessReason::Subscription));
    assert_eq!(r.access.required_tier_level, Some(2));
    assert_eq!(r.access.free_at, Some(1_000));
    assert_eq!(r.content.as_deref(), Some("secret"));
    assert_eq!((r.audio_file_id, r.video_file_id), (Some(10), Some(11)));
    assert_eq!(r.image_file_ids, Some(vec![1, 3]));
    assert_eq!((r.id, r.series_id, r.number, r.kind), (5, 6, 3, PostKind::Images));
}

#[test]
fn locked_post_is_a_teaser() {
    let r = to_public_post_at(post(Some(2)), &UserEntitlements::default(), 0);
    assert!(!r.access.granted);
    assert_eq!(r.access.reason, None);
    assert_eq!(r.title, "Gallery");
    assert_eq!(r.thumbnail_url.as_deref(), Some("thumb.jpg"));
    assert_eq!(r.content, None);
    assert_eq!((r.audio_file_id, r.video_file_id, r.image_file_ids), (None, None, None));
}

#[test]
fn rolled_free_post_is_full_for_everyone() {
    let r = to_public_post_at(post(Some(2)), &UserEntitlements::default(), 1_000);
    assert_eq!(r.access.reason, Some(AccessReason::Free));
    assert!(r.content.is_some());
    let now = to_public_post(post(Some(2)), &UserEntitlements::default());
    assert!(now.access.granted);
}

#[test]
fn list_keeps_order_and_decides_per_post() {
    let mut free = post(None);
    free.id = 1;
    free.free_at = None;
    let mut locked = post(Some(4));
    locked.id = 2;
    locked.free_at = None;
    let r = public_posts_at(vec![free, locked], &UserEntitlements::default(), 0);
    assert_eq!(r.0.len(), 2);
    assert_eq!((r.0[0].id, r.0[0].access.granted), (1, true));
    assert_eq!((r.0[1].id, r.0[1].access.granted), (2, false));
}

#[test]
fn page_defaults_and_clamps() {
    let q = |limit, offset| PublicPostsQuery { series_id: None, offset, limit }.page();
    assert_eq!(q(None, None), (20, 0));
    assert_eq!(q(Some(0), Some(-3)), (1, 0));
    assert_eq!(q(Some(101), Some(40)), (100, 40));
    assert_eq!(q(Some(55), None), (55, 0));
}

#[test]
fn path_segment_is_id_or_slug() {
    match lookup_of("d290f1ee-6c54-4b01-90e6-d701748f0851".to_owned()) {
        Lookup::Id(id) => assert_eq!(id, 0xd290f1ee_6c54_4b01_90e6_d701748f0851),
        other => panic!("unexpected {other:?}"),
    }
    match lookup_of("my-first-post".to_owned()) {
        Lookup::Slug(s) => assert_eq!(s, "my-first-post"),
        other => panic!("unexpected {other:?}"),
    }
}

#[test]
fn public_series_marks_owned() {
    let e = UserEntitlements { sub_tier_level: None, owned_post_ids: vec![], owned_series_ids: vec![8], is_creator: false };
    let r = public_series_list(vec![series(7), series(8)], &e);
    assert_eq!((r.0[0].series.id, r.0[0].owned), (7, false));
    assert_eq!((r.0[1].series.id, r.0[1].owned), (8, true));
    assert_eq!(r.0[1].series.length, None);
    assert_eq!(r.0[1].series.price_cents, Some(900));
}

#[test]
fn public_series_hides_feed_and_deleted() {
    let e = UserEntitlements::default();
    let feed = Series { is_feed: true, ..series(1) };
    let gone = Series { deleted_at: Some(3), ..series(2) };
    let r = public_series_list(vec![feed, series(7), gone], &e);
    assert_eq!(r.0.len(), 1);
    assert_eq!(r.0[0].series.id, 7);
}

#[test]
fn series_response_conversions() {
    let r = SeriesResponse::from(series(3));
    assert_eq!((r.id, r.title.as_str(), r.length, r.created_at, r.min_tier_level, r.is_feed), (3, "S", None, Some(5), Some(1), false));
    let r = r.with_length(Some(12));
    assert_eq!(r.length, Some(12));
    let list = SeriesListResponse::from(vec![r]);
    assert_eq!(list.0.len(), 1);
}

#[test]
fn post_kinds_by_name() {
    assert_eq!(post_kind_from_text("update"), Some(PostKind::Update));
    assert_eq!(post_kind_from_text("article"), Some(PostKind::Article));
    assert_eq!(post_kind_from_text("audio"), Some(PostKind::Audio));
    assert_eq!(post_kind_from_text("video"), Some(PostKind::Video));
    assert_eq!(post_kind_from_text("images"), Some(PostKind::Images));
    assert_eq!(post_kind_from_text("Video"), None);
}
