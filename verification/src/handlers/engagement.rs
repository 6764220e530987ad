//! Comments and likes: who may comment, reply, delete, and what they see.

use vstd::prelude::*;
use vstd::string::*;
use crate::errors::ServiceError;
use crate::models::engagement::{Comment, CommentResponse, LikeStateResponse};
use crate::services::entitlements::AccessDecision;
use crate::text::{trim, trimmed, str_eq};

verus! {

/// The like state after liking or unliking
#[derive(Debug, Clone, Copy)]
pub struct LikeToggleResponse {
    /// New like state after the operation
    pub state: LikeStateResponse,
}

/// Maximum accepted comment length in characters
pub const MAX_COMMENT_CHARS: usize = 5000;

/// Comments live behind the same gate as the post content: a requester
/// without access is refused.
pub fn require_post_access(decision: AccessDecision) -> (r: Result<(), ServiceError>)
    ensures
        decision.granted <==> r is Ok,
        r is Err ==> (r matches Err(ServiceError::Forbidden(m)) && m@ == "This post requires a subscription or purchase"@),
{
    if !decision.granted {
        return Err(ServiceError::Forbidden(String::from_str("This post requires a subscription or purchase")));
    }
    Ok(())
}

/// The text a comment is stored with: the submitted content trimmed, when
/// that holds 1 to 5000 characters; a bad request otherwise.
pub fn validate_comment(content: &str) -> (r: Result<String, ServiceError>)
    ensures
        (1 <= trimmed(content@).len() <= MAX_COMMENT_CHARS) <==> r is Ok,
        r matches Ok(t) ==> t@ == trimmed(content@),
        r is Err ==> (r matches Err(ServiceError::BadRequest(m)) && m@ == "Comment must be between 1 and 5000 characters"@),
{
    let t = trim(content);
    let n = t.unicode_len();
    if n == 0 || n > MAX_COMMENT_CHARS {
        return Err(ServiceError::BadRequest(String::from_str("Comment must be between 1 and 5000 characters")));
    }
    Ok(String::from_str(t))
}

/// A reply must name an existing, undeleted comment on the same post;
/// `matching_parents` counts the comments that qualify.
pub fn check_parent(parent_id: Option<u128>, matching_parents: i64) -> (r: Result<(), ServiceError>)
    ensures
        r is Ok <==> (parent_id is None || matching_parents != 0),
        r is Err ==> (r matches Err(ServiceError::NotFound(m)) && m@ == "Parent comment not found"@),
{
    if parent_id.is_some() && matching_parents == 0 {
        return Err(ServiceError::NotFound(String::from_str("Parent comment not found")));
    }
    Ok(())
}

/// Whether a requester may delete a comment: its author, or the creator.
pub open spec fn may_delete(requester: Option<u128>, requester_is_creator: bool, author: u128) -> bool {
    requester_is_creator || requester == Some(author)
}

/// Only a comment's author and the creator may delete it: the author
/// always may, the creator always may, and no one else (nor an anonymous
/// visitor) may.
pub proof fn lemma_only_author_or_creator_deletes(requester: Option<u128>, requester_is_creator: bool, author: u128)
    ensures
        may_delete(Some(author), false, author),
        may_delete(requester, true, author),
        !requester_is_creator && requester != Some(author) ==> !may_delete(requester, requester_is_creator, author),
        !may_delete(None, false, author),
{
}

/// Whether the requester may delete a comment by `author`
pub fn can_delete(requester: Option<u128>, requester_is_creator: bool, author: u128) -> (b: bool)
    ensures
        b == may_delete(requester, requester_is_creator, author),
{
    requester_is_creator || (match requester {
        Some(r) => r == author,
        None => false,
    })
}

/// Deleting a comment is allowed to its author and to the creator only
pub fn authorize_delete(user_id: u128, user_is_creator: bool, comment: &Comment) -> (r: Result<(), ServiceError>)
    ensures
        r is Ok <==> may_delete(Some(user_id), user_is_creator, comment.user_id),
        r is Err ==> (r matches Err(ServiceError::Forbidden(m)) && m@ == "Only the author or the creator may delete a comment"@),
{
    if comment.user_id != user_id && !user_is_creator {
        return Err(ServiceError::Forbidden(String::from_str("Only the author or the creator may delete a comment")));
    }
    Ok(())
}

/// Whether a user's role is the creator role.
pub open spec fn is_creator_role(role: Seq<char>) -> bool {
    role == "creator"@
}

/// The text of an optional string.
pub open spec fn opt_view(s: Option<String>) -> Option<Seq<char>> {
    match s {
        Some(t) => Some(t@),
        None => None,
    }
}

/// The response for a comment row and its author (display name, avatar,
/// role), as seen by `requester`
pub fn comment_response(
    comment: Comment,
    author_name: Option<String>,
    author_avatar_url: Option<String>,
    author_role: &str,
    requester: Option<u128>,
    requester_is_creator: bool,
) -> (r: CommentResponse)
    ensures
        r.id == comment.id,
        r.post_id == comment.post_id,
        r.parent_id == comment.parent_id,
        r.content@ == comment.content@,
        opt_view(r.author_name) == opt_view(author_name),
        opt_view(r.author_avatar_url) == opt_view(author_avatar_url),
        r.is_creator == is_creator_role(author_role@),
        r.can_delete == may_delete(requester, requester_is_creator, comment.user_id),
        r.created_at == Some(comment.created_at),
{
    let can = can_delete(requester, requester_is_creator, comment.user_id);
    CommentResponse {
        id: comment.id,
        post_id: comment.post_id,
        parent_id: comment.parent_id,
        content: comment.content,
        author_name,
        author_avatar_url,
        is_creator: str_eq(author_role, "creator"),
        can_delete: can,
        created_at: Some(comment.created_at),
    }
}

/// The new comment row: the validated text, by `user_id` on `post_id`,
/// stamped with row id `id` and time `now`
pub fn new_comment(id: u128, post_id: u128, user_id: u128, parent_id: Option<u128>, content: String, now: i64) -> (c: Comment)
    ensures
        c == (Comment { id, post_id, user_id, parent_id, content, created_at: now, updated_at: now, deleted_at: None }),
{
    Comment { id, post_id, user_id, parent_id, content, created_at: now, updated_at: now, deleted_at: None }
}

/// The response for a comment the requester just wrote: their own, so
/// deletable by them
pub fn created_comment_response(
    comment: Comment,
    author_name: Option<String>,
    author_avatar_url: Option<String>,
    author_is_creator: bool,
) -> (r: CommentResponse)
    ensures
        r.id == comment.id,
        r.post_id == comment.post_id,
        r.parent_id == comment.parent_id,
        r.content@ == comment.content@,
        opt_view(r.author_name) == opt_view(author_name),
        opt_view(r.author_avatar_url) == opt_view(author_avatar_url),
        r.is_creator == author_is_creator,
        r.can_delete,
        r.created_at == Some(comment.created_at),
{
    CommentResponse {
        id: comment.id,
        post_id: comment.post_id,
        parent_id: comment.parent_id,
        content: comment.content,
        author_name,
        author_avatar_url,
        is_creator: author_is_creator,
        can_delete: true,
        created_at: Some(comment.created_at),
    }
}

/// The like state of a post: its total like count, and whether the
/// requester is among the likers (`own_likes` counts the requester's likes;
/// anonymous requesters have liked nothing)
pub fn like_state(like_count: i64, requester: Option<u128>, own_likes: i64) -> (r: LikeStateResponse)
    ensures
        r == (LikeStateResponse { like_count, liked_by_me: requester is Some && own_likes > 0 }),
{
    let liked_by_me = match requester {
        Some(_) => own_likes > 0,
        None => false,
    };
    LikeStateResponse { like_count, liked_by_me }
}

} // verus!
