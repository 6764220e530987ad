//! Series: ordered collections of posts, sellable as a bundle.

use vstd::prelude::*;
use vstd::std_specs::convert::FromSpecImpl;

verus! {

/// A series row
#[derive(Debug, Clone)]
pub struct Series {
    /// Unique series identifier
    pub id: u128,
    /// The user who owns this series
    pub user_id: u128,
    /// Title of the series
    pub title: String,
    /// Description of the series
    pub description: Option<String>,
    /// URL-friendly slug
    pub slug: String,
    /// Category or genre
    pub category: Option<String>,
    /// Cover image URL
    pub cover_image_url: Option<String>,
    /// Creation time
    pub created_at: Option<i64>,
    /// Last update time
    pub updated_at: Option<i64>,
    /// Soft-delete time
    pub deleted_at: Option<i64>,
    /// Bundle price in cents (None = not sellable as a bundle)
    pub price_cents: Option<i32>,
    /// Stripe Price backing the bundle purchase
    pub stripe_price_id: Option<String>,
    /// Default minimum tier level applied to new posts in this series
    pub min_tier_level: Option<i32>,
    /// Whether this is the hidden default feed series for standalone updates
    pub is_feed: bool,
}

/// A series as the API returns it
#[derive(Debug, Clone)]
pub struct SeriesResponse {
    /// Series identifier
    pub id: u128,
    /// The user who owns this series
    pub user_id: u128,
    /// Title
    pub title: String,
    /// Description
    pub description: Option<String>,
    /// Slug
    pub slug: String,
    /// Category
    pub category: Option<String>,
    /// Cover image URL
    pub cover_image_url: Option<String>,
    /// Number of posts in the series, when known
    pub length: Option<i32>,
    /// Creation time
    pub created_at: Option<i64>,
    /// Last update time
    pub updated_at: Option<i64>,
    /// Bundle price in cents (None = not sellable as a bundle)
    pub price_cents: Option<i32>,
    /// Default minimum tier level applied to new posts
    pub min_tier_level: Option<i32>,
    /// Whether this is the hidden feed series
    pub is_feed: bool,
}

/// The response for a series row: its public fields, no length yet.
pub open spec fn series_response(s: Series) -> SeriesResponse {
    SeriesResponse {
        id: s.id,
        user_id: s.user_id,
        title: s.title,
        description: s.description,
        slug: s.slug,
        category: s.category,
        cover_image_url: s.cover_image_url,
        length: None,
        created_at: s.created_at,
        updated_at: s.updated_at,
        price_cents: s.price_cents,
        min_tier_level: s.min_tier_level,
        is_feed: s.is_feed,
    }
}

/// A series response reports the row as stored: its id, owner, title,
/// description, slug, category, cover, times, bundle price, default tier
/// and feed flag; only the post count is left unknown.
pub proof fn lemma_series_response_reports_the_row(s: Series)
    ensures
        series_response(s).id == s.id,
        series_response(s).user_id == s.user_id,
        series_response(s).title == s.title,
        series_response(s).description == s.description,
        series_response(s).slug == s.slug,
        series_response(s).category == s.category,
        series_response(s).cover_image_url == s.cover_image_url,
        series_response(s).length is None,
        series_response(s).created_at == s.created_at,
        series_response(s).updated_at == s.updated_at,
        series_response(s).price_cents == s.price_cents,
        series_response(s).min_tier_level == s.min_tier_level,
        series_response(s).is_feed == s.is_feed,
{
}

impl From<Series> for SeriesResponse {
    fn from(series: Series) -> (r: Self) {
        SeriesResponse {
            id: series.id,
            user_id: series.user_id,
            title: series.title,
            description: series.description,
            slug: series.slug,
            category: series.category,
            cover_image_url: series.cover_image_url,
            length: None,
            created_at: series.created_at,
            updated_at: series.updated_at,
            price_cents: series.price_cents,
            min_tier_level: series.min_tier_level,
            is_feed: series.is_feed,
        }
    }
}

impl FromSpecImpl<Series> for SeriesResponse {
    open spec fn obeys_from_spec() -> bool {
        true
    }

    open spec fn from_spec(series: Series) -> SeriesResponse {
        series_response(series)
    }
}

impl SeriesResponse {
    /// The same response with the post count filled in
    pub fn with_length(self, length: Option<i32>) -> (r: Self)
        ensures
            r == (SeriesResponse { length, ..self }),
    {
        let mut r = self;
        r.length = length;
        r
    }
}

/// A list of series
#[derive(Debug, Clone)]
pub struct SeriesListResponse(pub Vec<SeriesResponse>);

impl From<Vec<SeriesResponse>> for SeriesListResponse {
    fn from(series: Vec<SeriesResponse>) -> (r: Self) {
        SeriesListResponse(series)
    }
}

impl FromSpecImpl<Vec<SeriesResponse>> for SeriesListResponse {
    open spec fn obeys_from_spec() -> bool {
        true
    }

    open spec fn from_spec(series: Vec<SeriesResponse>) -> SeriesListResponse {
        SeriesListResponse(series)
    }
}

/// Request to create a series
#[derive(Debug, Clone)]
pub struct CreateSeriesRequest {
    /// Title
    pub title: String,
    /// Description
    pub description: Option<String>,
    /// Unique URL path segment
    pub slug: String,
    /// Category
    pub category: Option<String>,
    /// Cover image URL
    pub cover_image_url: Option<String>,
    /// Bundle price in cents
    pub price_cents: Option<i32>,
    /// Default minimum tier level for new posts
    pub min_tier_level: Option<i32>,
}

/// Request to update a series; absent fields stay unchanged
#[derive(Debug, Clone)]
pub struct UpdateSeriesRequest {
    /// New title
    pub title: Option<String>,
    /// New description
    pub description: Option<String>,
    /// New slug
    pub slug: Option<String>,
    /// New category
    pub category: Option<String>,
    /// New cover image URL
    pub cover_image_url: Option<String>,
    /// New bundle price in cents (use `clear_price` to remove it)
    pub price_cents: Option<i32>,
    /// Remove the bundle price
    pub clear_price: Option<bool>,
    /// New default minimum tier level
    pub min_tier_level: Option<i32>,
    /// Remove the default tier gate
    pub clear_min_tier: Option<bool>,
}

} // verus!
