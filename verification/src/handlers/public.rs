//! The public site's view of posts and series: full content for entitled
//! requesters, teasers for everyone else.

use vstd::prelude::*;
use vstd::string::*;
use crate::models::posts::{Post, PostKind};
use crate::models::series::{Series, SeriesResponse, series_response};
use crate::services::entitlements::{
    AccessDecision, AccessReason, UserEntitlements, access_decision, can_access_post, can_access_post_at,
    contains_id,
};
use crate::text::{parse_uuid, parsed_uuid};

verus! {

/// Access state attached to every public post response
#[derive(Debug, Clone, Copy, PartialEq, Eq, Structural)]
pub struct PostAccess {
    /// Whether the requester may see the full post
    pub granted: bool,
    /// Why access was granted (None when locked)
    pub reason: Option<AccessReason>,
    /// Tier level that unlocks this post, if tier-gated
    pub required_tier_level: Option<i32>,
    /// One-off price that unlocks this post, if purchasable
    pub price_cents: Option<i32>,
    /// When the post rolls free, if scheduled
    pub free_at: Option<i64>,
}

/// A post as seen by the public site: full content when entitled, teaser otherwise
#[derive(Debug, Clone)]
pub struct PublicPostResponse {
    /// Post id
    pub id: u128,
    /// Parent series id
    pub series_id: u128,
    /// Title (always visible)
    pub title: String,
    /// Content kind
    pub kind: PostKind,
    /// URL slug
    pub slug: String,
    /// Position within the series
    pub number: i32,
    /// Thumbnail URL (always visible)
    pub thumbnail_url: Option<String>,
    /// Publication time
    pub created_at: Option<i64>,
    /// Access decision for this requester
    pub access: PostAccess,
    /// Full content; None when locked
    pub content: Option<String>,
    /// Audio file id; None when locked
    pub audio_file_id: Option<u128>,
    /// Video file id; None when locked
    pub video_file_id: Option<u128>,
    /// Image gallery file ids; None when locked
    pub image_file_ids: Option<Vec<u128>>,
}

/// The ids of a gallery, null entries dropped, order kept.
pub open spec fn present_ids(ids: Seq<Option<u128>>) -> Seq<u128>
    decreases ids.len(),
{
    if ids.len() == 0 {
        Seq::empty()
    } else {
        let rest = present_ids(ids.drop_last());
        match ids.last() {
            Some(id) => rest.push(id),
            None => rest,
        }
    }
}

fn flatten_ids(ids: &Vec<Option<u128>>) -> (r: Vec<u128>)
    ensures
        r@ == present_ids(ids@),
{
    let mut r: Vec<u128> = Vec::new();
    let mut i: usize = 0;
    while i < ids.len()
        invariant
            i <= ids.len(),
            r@ == present_ids(ids@.take(i as int)),
        decreases ids.len() - i,
    {
        assert(ids@.take(i + 1).drop_last() =~= ids@.take(i as int));
        if let Some(id) = ids[i] {
            r.push(id);
        }
        i = i + 1;
    }
    assert(ids@.take(ids.len() as int) =~= ids@);
    r
}

/// The text of an optional string.
pub open spec fn opt_view(s: Option<String>) -> Option<Seq<char>> {
    match s {
        Some(t) => Some(t@),
        None => None,
    }
}

/// `r` is the public shape of `post` under access decision `d`: the
/// teaser fields always, the access state, and the content and media only
/// when access is granted.
pub open spec fn public_post_ok(post: Post, d: AccessDecision, r: PublicPostResponse) -> bool {
    &&& r.id == post.id
    &&& r.series_id == post.series_id
    &&& r.title@ == post.title@
    &&& r.kind == post.kind
    &&& r.slug@ == post.slug@
    &&& r.number == post.number
    &&& opt_view(r.thumbnail_url) == opt_view(post.thumbnail_url)
    &&& r.created_at == post.created_at
    &&& r.access == (PostAccess {
        granted: d.granted,
        reason: d.reason,
        required_tier_level: post.min_tier_level,
        price_cents: post.price_cents,
        free_at: post.free_at,
    })
    &&& if d.granted {
        &&& opt_view(r.content) == Some(post.content@)
        &&& r.audio_file_id == post.audio_file_id
        &&& r.video_file_id == post.video_file_id
        &&& (match (r.image_file_ids, post.image_file_ids) {
            (Some(got), Some(ids)) => got@ == present_ids(ids@),
            (None, None) => true,
            _ => false,
        })
    } else {
        &&& r.content is None
        &&& r.audio_file_id is None
        &&& r.video_file_id is None
        &&& r.image_file_ids is None
    }
}

fn shape_post(post: Post, d: AccessDecision) -> (r: PublicPostResponse)
    ensures
        public_post_ok(post, d, r),
{
    let access = PostAccess {
        granted: d.granted,
        reason: d.reason,
        required_tier_level: post.min_tier_level,
        price_cents: post.price_cents,
        free_at: post.free_at,
    };
    if d.granted {
        let image_file_ids = match &post.image_file_ids {
            Some(ids) => Some(flatten_ids(ids)),
            None => None,
        };
        PublicPostResponse {
            id: post.id,
            series_id: post.series_id,
            title: post.title,
            kind: post.kind,
            slug: post.slug,
            number: post.number,
            thumbnail_url: post.thumbnail_url,
            created_at: post.created_at,
            access,
            content: Some(post.content),
            audio_file_id: post.audio_file_id,
            video_file_id: post.video_file_id,
            image_file_ids,
        }
    } else {
        PublicPostResponse {
            id: post.id,
            series_id: post.series_id,
            title: post.title,
            kind: post.kind,
            slug: post.slug,
            number: post.number,
            thumbnail_url: post.thumbnail_url,
            created_at: post.created_at,
            access,
            content: None,
            audio_file_id: None,
            video_file_id: None,
            image_file_ids: None,
        }
    }
}

/// Map a post through the entitlement decision at time `now` into its public shape
pub fn to_public_post_at(post: Post, entitlements: &UserEntitlements, now: i64) -> (r: PublicPostResponse)
    ensures
        public_post_ok(post, access_decision(*entitlements, post, now), r),
{
    let d = can_access_post_at(entitlements, &post, now);
    shape_post(post, d)
}

/// Map a post through the entitlement decision now into its public shape
pub fn to_public_post(post: Post, entitlements: &UserEntitlements) -> (r: PublicPostResponse)
    ensures
        exists|now: i64| public_post_ok(post, access_decision(*entitlements, post, now), r),
{
    let d = can_access_post(entitlements, &post);
    shape_post(post, d)
}

/// Whoever may read a post gets all of it: its content, audio, video and
/// every image id it holds, and the access state names the reason.
pub proof fn lemma_readable_post_is_complete(post: Post, e: UserEntitlements, now: i64, r: PublicPostResponse)
    requires
        public_post_ok(post, access_decision(e, post, now), r),
        access_decision(e, post, now).granted,
    ensures
        r.content matches Some(c) && c@ == post.content@,
        r.audio_file_id == post.audio_file_id,
        r.video_file_id == post.video_file_id,
        post.image_file_ids is Some <==> r.image_file_ids is Some,
        post.image_file_ids matches Some(ids) ==> forall|i: int| 0 <= i < ids@.len() && (#[trigger] ids@[i]) is Some
            ==> r.image_file_ids->0@.contains(ids@[i]->0),
        r.access.granted,
        r.access.reason is Some,
        r.id == post.id && r.title@ == post.title@,
{
    if let Some(ids) = post.image_file_ids {
        assert forall|i: int| 0 <= i < ids@.len() && (#[trigger] ids@[i]) is Some
            implies r.image_file_ids->0@.contains(ids@[i]->0) by {
            lemma_present_ids_keep_each(ids@, i);
        }
    }
}

/// Every id present among `ids` is kept by `present_ids`.
proof fn lemma_present_ids_keep_each(ids: Seq<Option<u128>>, i: int)
    requires
        0 <= i < ids.len(),
        ids[i] is Some,
    ensures
        present_ids(ids).contains(ids[i]->0),
    decreases ids.len(),
{
    let rest = ids.drop_last();
    if i == ids.len() - 1 {
        assert(present_ids(ids).last() == ids[i]->0);
    } else {
        assert(rest[i] == ids[i]);
        lemma_present_ids_keep_each(rest, i);
        let j = choose|j: int| 0 <= j < present_ids(rest).len() && present_ids(rest)[j] == ids[i]->0;
        assert(present_ids(ids)[j] == present_ids(rest)[j]);
    }
}

/// A requested page is always between 1 and 100 posts long, 20 when not
/// given, exactly as asked when that is in range; it never starts before
/// the first post, and starts where asked otherwise.
pub proof fn lemma_page_is_clamped(q: PublicPostsQuery)
    ensures
        1 <= page_of(q).0 <= 100,
        q.limit is None ==> page_of(q).0 == 20,
        forall|l: i64| q.limit == Some(l) && 1 <= l <= 100 ==> page_of(q).0 == l,
        q.limit matches Some(l) && l > 100 ==> page_of(q).0 == 100,
        q.limit matches Some(l) && l < 1 ==> page_of(q).0 == 1,
        page_of(q).1 >= 0,
        forall|o: i64| q.offset == Some(o) && o >= 0 ==> page_of(q).1 == o,
        q.offset is None ==> page_of(q).1 == 0,
{
}

/// A locked post is a teaser: whoever lacks access gets no content and no
/// media ids, only title, thumbnail and the access state.
pub proof fn lemma_locked_post_is_teaser(post: Post, e: UserEntitlements, now: i64, r: PublicPostResponse)
    requires
        public_post_ok(post, access_decision(e, post, now), r),
        !access_decision(e, post, now).granted,
    ensures
        r.content is None,
        r.audio_file_id is None,
        r.video_file_id is None,
        r.image_file_ids is None,
        r.access.reason is None,
{
}

/// Posts, newest first
#[derive(Debug, Clone)]
pub struct PublicPostsResponse(pub Vec<PublicPostResponse>);

/// Query parameters of the public post list
#[derive(Debug, Clone, Copy)]
pub struct PublicPostsQuery {
    /// Only posts belonging to this series
    pub series_id: Option<u128>,
    /// Number of posts to skip
    pub offset: Option<i64>,
    /// Maximum number of posts to return (default 20, max 100)
    pub limit: Option<i64>,
}

/// The page a query asks for: `limit` defaults to 20 and is clamped to
/// 1..=100; `offset` defaults to 0 and is at least 0.
pub open spec fn page_of(q: PublicPostsQuery) -> (i64, i64) {
    let limit = match q.limit {
        Some(l) => if l < 1 { 1 } else if l > 100 { 100 } else { l },
        None => 20,
    };
    let offset = match q.offset {
        Some(o) => if o < 0 { 0 } else { o },
        None => 0,
    };
    (limit, offset)
}

impl PublicPostsQuery {
    /// The (limit, offset) of the requested page
    pub fn page(&self) -> (r: (i64, i64))
        ensures
            r == page_of(*self),
            1 <= r.0 <= 100,
            r.1 >= 0,
    {
        let limit = match self.limit {
            Some(l) => if l < 1 { 1 } else if l > 100 { 100 } else { l },
            None => 20,
        };
        let offset = match self.offset {
            Some(o) => if o < 0 { 0 } else { o },
            None => 0,
        };
        (limit, offset)
    }
}

/// How a path segment addresses a post or series: by id when it parses as
/// a UUID, else by slug
#[derive(Debug, Clone)]
pub enum Lookup {
    /// By id
    Id(u128),
    /// By slug
    Slug(String),
}

/// Read a path segment as an id or a slug
pub fn lookup_of(id_or_slug: String) -> (r: Lookup)
    ensures
        match parsed_uuid(id_or_slug@) {
            Some(id) => r == Lookup::Id(id),
            None => r matches Lookup::Slug(s) && s@ == id_or_slug@,
        },
{
    match parse_uuid(id_or_slug.as_str()) {
        Some(id) => Lookup::Id(id),
        None => Lookup::Slug(id_or_slug),
    }
}

/// A series as seen by the public site
#[derive(Debug, Clone)]
pub struct PublicSeriesResponse {
    /// The series
    pub series: SeriesResponse,
    /// Whether the requester owns this series via purchase
    pub owned: bool,
}

/// Visible series
#[derive(Debug, Clone)]
pub struct PublicSeriesListResponse(pub Vec<PublicSeriesResponse>);

/// A series with whether the requester owns it by purchase
pub fn to_public_series(series: Series, entitlements: &UserEntitlements) -> (r: PublicSeriesResponse)
    ensures
        r.series == series_response(series),
        r.owned == entitlements.owned_series_ids@.contains(series.id),
{
    let owned = contains_id(&entitlements.owned_series_ids, series.id);
    PublicSeriesResponse { series: SeriesResponse::from(series), owned }
}


/// Shape a page of posts for one requester, in order, deciding access for
/// each at time `now`
pub fn public_posts_at(posts: Vec<Post>, entitlements: &UserEntitlements, now: i64) -> (r: PublicPostsResponse)
    ensures
        r.0@.len() == posts@.len(),
        forall|i: int| 0 <= i < posts@.len() ==>
            public_post_ok(posts@[i], access_decision(*entitlements, posts@[i], now), #[trigger] r.0@[i]),
{
    let mut out: Vec<PublicPostResponse> = Vec::new();
    let mut rest = posts;
    let ghost all = rest@;
    while rest.len() > 0
        invariant
            out@.len() + rest@.len() == all.len(),
            rest@ == all.skip(out@.len() as int),
            forall|i: int| 0 <= i < out@.len() ==>
                public_post_ok(all[i], access_decision(*entitlements, all[i], now), #[trigger] out@[i]),
        decreases rest@.len(),
    {
        let ghost k = out@.len();
        let post = rest.remove(0);
        assert(post == all[k as int]);
        let shaped = to_public_post_at(post, entitlements, now);
        out.push(shaped);
        assert(rest@ =~= all.skip(out@.len() as int));
    }
    PublicPostsResponse(out)
}

/// A series the public site lists: not the hidden feed, not deleted.
pub open spec fn series_listed(s: Series) -> bool {
    !s.is_feed && s.deleted_at is None
}

/// The public shape of a series for a requester.
pub open spec fn public_series_of(s: Series, e: UserEntitlements) -> PublicSeriesResponse {
    PublicSeriesResponse { series: series_response(s), owned: e.owned_series_ids@.contains(s.id) }
}

/// The public shapes of the listed series among `ss`, in order.
pub open spec fn listed_public_series(ss: Seq<Series>, e: UserEntitlements) -> Seq<PublicSeriesResponse>
    decreases ss.len(),
{
    if ss.len() == 0 {
        Seq::empty()
    } else {
        let rest = listed_public_series(ss.drop_last(), e);
        if series_listed(ss.last()) {
            rest.push(public_series_of(ss.last(), e))
        } else {
            rest
        }
    }
}

/// The feed series is hidden: no series the public site lists is a feed.
pub proof fn lemma_feed_is_never_listed(ss: Seq<Series>, e: UserEntitlements)
    ensures
        forall|i: int| 0 <= i < listed_public_series(ss, e).len() ==> !(#[trigger] listed_public_series(ss, e)[i]).series.is_feed,
    decreases ss.len(),
{
    if ss.len() > 0 {
        lemma_feed_is_never_listed(ss.drop_last(), e);
    }
}

/// Each listed series is a listed row as stored, marked owned exactly
/// when the requester bought it.
pub proof fn lemma_listed_series_are_rows(ss: Seq<Series>, e: UserEntitlements)
    ensures
        forall|j: int| 0 <= j < listed_public_series(ss, e).len() ==> exists|i: int| 0 <= i < ss.len() && {
            let entry = #[trigger] listed_public_series(ss, e)[j];
            &&& !ss[i].is_feed && ss[i].deleted_at is None
            &&& entry.series == #[trigger] series_response(ss[i])
            &&& entry.owned == e.owned_series_ids@.contains(ss[i].id)
        },
    decreases ss.len(),
{
    if ss.len() > 0 {
        let rest = ss.drop_last();
        lemma_listed_series_are_rows(rest, e);
        let all = listed_public_series(ss, e);
        let before = listed_public_series(rest, e);
        assert forall|j: int| 0 <= j < all.len() implies exists|i: int| 0 <= i < ss.len() && {
            let entry = #[trigger] all[j];
            &&& !ss[i].is_feed && ss[i].deleted_at is None
            &&& entry.series == #[trigger] series_response(ss[i])
            &&& entry.owned == e.owned_series_ids@.contains(ss[i].id)
        } by {
            if j < before.len() {
                assert(all[j] == before[j]);
                let i = choose|i: int| 0 <= i < rest.len() && {
                    let entry = #[trigger] before[j];
                    &&& !rest[i].is_feed && rest[i].deleted_at is None
                    &&& entry.series == #[trigger] series_response(rest[i])
                    &&& entry.owned == e.owned_series_ids@.contains(rest[i].id)
                };
                assert(ss[i] == rest[i]);
            } else {
                let i = ss.len() - 1;
                assert(all[j] == public_series_of(ss.last(), e));
                assert(ss[i] == ss.last());
            }
        }
    }
}

/// Shape the series the public site lists for one requester, in order:
/// the hidden feed series and deleted series are left out
pub fn public_series_list(series: Vec<Series>, entitlements: &UserEntitlements) -> (r: PublicSeriesListResponse)
    ensures
        r.0@ == listed_public_series(series@, *entitlements),
{
    let mut out: Vec<PublicSeriesResponse> = Vec::new();
    let mut rest = series;
    let ghost all = rest@;
    let ghost mut k: int = 0;
    while rest.len() > 0
        invariant
            0 <= k <= all.len(),
            k + rest@.len() == all.len(),
            rest@ == all.skip(k),
            out@ == listed_public_series(all.take(k), *entitlements),
        decreases rest@.len(),
    {
        let one = rest.remove(0);
        assert(one == all[k]);
        assert(all.take(k + 1).drop_last() =~= all.take(k));
        assert(all.take(k + 1).last() == one);
        if !one.is_feed && one.deleted_at.is_none() {
            let shaped = to_public_series(one, entitlements);
            assert(shaped == public_series_of(all[k], *entitlements));
            out.push(shaped);
        }
        proof {
            k = k + 1;
        }
        assert(rest@ =~= all.skip(k));
    }
    assert(all.take(k) =~= all);
    PublicSeriesListResponse(out)
}

} // verus!
