//! The post record as the entitlement and public handlers read it.
//!
//! Identifiers are UUIDs held as their 128-bit value; timestamps are
//! microseconds since the Unix epoch (UTC).

use vstd::prelude::*;
use crate::text::str_eq;

verus! {

/// The content kind of a post
#[derive(Debug, Clone, Copy, PartialEq, Eq, Structural)]
pub enum PostKind {
    /// A short standalone update
    Update,
    /// A long-form article
    Article,
    /// An audio episode
    Audio,
    /// A video
    Video,
    /// An image gallery
    Images,
}

/// The kind stored in a post's `kind` column, in its lowercase name.
pub open spec fn kind_named(name: Seq<char>) -> Option<PostKind> {
    if name == "update"@ {
        Some(PostKind::Update)
    } else if name == "article"@ {
        Some(PostKind::Article)
    } else if name == "audio"@ {
        Some(PostKind::Audio)
    } else if name == "video"@ {
        Some(PostKind::Video)
    } else if name == "images"@ {
        Some(PostKind::Images)
    } else {
        None
    }
}

/// Read a post kind from its lowercase name; None for any other text
pub fn post_kind_from_text(name: &str) -> (k: Option<PostKind>)
    ensures
        k == kind_named(name@),
{
    if str_eq(name, "update") {
        Some(PostKind::Update)
    } else if str_eq(name, "article") {
        Some(PostKind::Article)
    } else if str_eq(name, "audio") {
        Some(PostKind::Audio)
    } else if str_eq(name, "video") {
        Some(PostKind::Video)
    } else if str_eq(name, "images") {
        Some(PostKind::Images)
    } else {
        None
    }
}

/// A published or draft post
#[derive(Debug, Clone)]
pub struct Post {
    /// Unique post identifier
    pub id: u128,
    /// The series the post belongs to
    pub series_id: u128,
    /// Title (always visible)
    pub title: String,
    /// Full content
    pub content: String,
    /// URL slug
    pub slug: String,
    /// Position within the series
    pub number: i32,
    /// Whether the post is published
    pub is_published: Option<bool>,
    /// Thumbnail URL
    pub thumbnail_url: Option<String>,
    /// Attached audio file
    pub audio_file_id: Option<u128>,
    /// Attached video file
    pub video_file_id: Option<u128>,
    /// Creation time
    pub created_at: Option<i64>,
    /// Last update time
    pub updated_at: Option<i64>,
    /// Soft-delete time
    pub deleted_at: Option<i64>,
    /// Content kind
    pub kind: PostKind,
    /// Minimum subscription tier level that unlocks the post
    pub min_tier_level: Option<i32>,
    /// One-off price that unlocks the post
    pub price_cents: Option<i32>,
    /// Stripe Price backing the one-off purchase
    pub stripe_price_id: Option<String>,
    /// Time at which the post rolls free
    pub free_at: Option<i64>,
    /// Image gallery file ids (entries may be null)
    pub image_file_ids: Option<Vec<Option<u128>>>,
}

} // verus!
