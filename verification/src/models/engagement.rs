//! Comments and likes on posts.

use vstd::prelude::*;

verus! {

/// A comment row
#[derive(Debug, Clone)]
pub struct Comment {
    /// Unique comment identifier
    pub id: u128,
    /// The post commented on
    pub post_id: u128,
    /// The commenting user
    pub user_id: u128,
    /// Parent comment when this is a reply
    pub parent_id: Option<u128>,
    /// Comment text
    pub content: String,
    /// Creation time
    pub created_at: i64,
    /// Last update time
    pub updated_at: i64,
    /// Soft-delete time
    pub deleted_at: Option<i64>,
}

/// A like row
#[derive(Debug, Clone, Copy)]
pub struct PostLike {
    /// Unique row identifier
    pub id: u128,
    /// The liked post
    pub post_id: u128,
    /// The liking user
    pub user_id: u128,
    /// Creation time
    pub created_at: i64,
}

/// A comment as returned by the API, with author display info
#[derive(Debug, Clone)]
pub struct CommentResponse {
    /// Comment id
    pub id: u128,
    /// The post commented on
    pub post_id: u128,
    /// Parent comment when this is a reply
    pub parent_id: Option<u128>,
    /// Comment text
    pub content: String,
    /// Author's display name
    pub author_name: Option<String>,
    /// Author's avatar URL
    pub author_avatar_url: Option<String>,
    /// Whether the author is the site's creator
    pub is_creator: bool,
    /// Whether the requester may delete this comment (own comment, or creator)
    pub can_delete: bool,
    /// Creation time
    pub created_at: Option<i64>,
}

/// Comments, oldest first
#[derive(Debug, Clone)]
pub struct CommentsListResponse(pub Vec<CommentResponse>);

/// Request to create a comment
#[derive(Debug, Clone)]
pub struct CreateCommentRequest {
    /// Comment text (1..=5000 characters once trimmed)
    pub content: String,
    /// Parent comment when replying
    pub parent_id: Option<u128>,
}

/// Like state of a post for the requester
#[derive(Debug, Clone, Copy, PartialEq, Eq, Structural)]
pub struct LikeStateResponse {
    /// Total number of likes on the post
    pub like_count: i64,
    /// Whether the requesting user has liked the post
    pub liked_by_me: bool,
}

} // verus!
