//! Interactions: the one canonical shape of an interaction's identifiers
//! (so the dedup index binds to the edge it guards), the visibility check a
//! content-directed event needs, and which events can be retracted.

use vstd::prelude::*;
use crate::error::ApiError;

verus! {

/// The canonical identifiers of an interaction: a target user wins over any
/// content; a comment wins over its post; at least one must be present.
pub open spec fn canonical_ids(target_id: Option<i64>, post_id: Option<i64>, comment_id: Option<i64>)
    -> Result<(Option<i64>, Option<i64>, Option<i64>), ApiError>
{
    match (target_id, post_id, comment_id) {
        (Some(t), _, _) => Ok((Some(t), None, None)),
        (None, _, Some(c)) => Ok((None, None, Some(c))),
        (None, Some(p), None) => Ok((None, Some(p), None)),
        (None, None, None) => Err(ApiError::Validation("interaction_requires_target_or_post")),
    }
}

/// Collapse `(target_id, post_id, comment_id)` to its canonical shape.
pub fn normalize_ids(target_id: Option<i64>, post_id: Option<i64>, comment_id: Option<i64>) -> (r:
    Result<(Option<i64>, Option<i64>, Option<i64>), ApiError>)
    ensures
        r == canonical_ids(target_id, post_id, comment_id),
{
    match (target_id, post_id, comment_id) {
        (Some(t), _, _) => Ok((Some(t), None, None)),
        (None, _, Some(c)) => Ok((None, None, Some(c))),
        (None, Some(p), None) => Ok((None, Some(p), None)),
        (None, None, None) => Err(ApiError::Validation("interaction_requires_target_or_post")),
    }
}

/// The canonical shape carries exactly one identifier, keeps the one with
/// the highest precedence, and is a fixed point: normalising it again
/// changes nothing. So every request that resolves to the same edge
/// produces the same dedup tuple.
pub proof fn lemma_normalize_canonical(
    target_id: Option<i64>,
    post_id: Option<i64>,
    comment_id: Option<i64>,
)
    ensures
        canonical_ids(target_id, post_id, comment_id) matches Ok((t, p, c)) ==> {
            &&& canonical_ids(t, p, c) == canonical_ids(target_id, post_id, comment_id)
            &&& (t is Some) as int + (p is Some) as int + (c is Some) as int == 1
            &&& (target_id is Some ==> t == target_id)
            &&& (target_id is None && comment_id is Some ==> c == comment_id)
        },
        canonical_ids(target_id, post_id, comment_id) is Err <==> (target_id is None && post_id is None
            && comment_id is None),
{
}

/// Which visibility check a content-directed event needs before it is
/// recorded (a comment is exactly as visible as its post).
#[derive(Debug, Clone, Copy, PartialEq, Eq, Structural)]
pub enum VisibilityCheck {
    Post(i64),
    Comment(i64),
    NotNeeded,
}

/// The check for canonical ids: the post if there is one, else the comment,
/// else none (a direct user-to-user event).
pub fn visibility_check(post_id: Option<i64>, comment_id: Option<i64>) -> (r: VisibilityCheck)
    ensures
        r == match (post_id, comment_id) {
            (Some(p), _) => VisibilityCheck::Post(p),
            (None, Some(c)) => VisibilityCheck::Comment(c),
            (None, None) => VisibilityCheck::NotNeeded,
        },
{
    match (post_id, comment_id) {
        (Some(p), _) => VisibilityCheck::Post(p),
        (None, Some(c)) => VisibilityCheck::Comment(c),
        (None, None) => VisibilityCheck::NotNeeded,
    }
}

/// Content the actor cannot see is answered exactly like missing content.
pub fn require_visible(visible: bool) -> (r: Result<(), ApiError>)
    ensures
        visible ==> r is Ok,
        !visible ==> r == Err::<(), ApiError>(ApiError::NotFound),
{
    if !visible {
        return Err(ApiError::NotFound);
    }
    Ok(())
}

/// Only a like can be retracted.
pub fn check_retractable(is_like: bool) -> (r: Result<(), ApiError>)
    ensures
        is_like ==> r is Ok,
        !is_like ==> r == Err::<(), ApiError>(ApiError::Validation("only_like_retractable")),
{
    if !is_like {
        return Err(ApiError::Validation("only_like_retractable"));
    }
    Ok(())
}

} // verus!
