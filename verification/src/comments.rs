//! Comments: what a comment body must be, and how a comment on a missing
//! post is answered.

use vstd::prelude::*;
use crate::error::{fk_mapped, ApiError, DbFailure};
use crate::text::{bounded_text_spec, bounded_trimmed};

verus! {

/// Hard cap on a comment's length, in bytes.
pub const MAX_COMMENT_LEN: usize = 2000;

/// Create request: the post comes from the path and the author from the
/// session, so the body carries only the text.
#[derive(Debug, Clone)]
pub struct NewComment {
    pub body: String,
}

/// A comment body, trimmed: neither blank nor longer than 2000 bytes.
pub fn check_comment_body(body: &str) -> (r: Result<&str, ApiError>)
    ensures
        match bounded_text_spec(body@, MAX_COMMENT_LEN, "empty_comment", "comment_too_long") {
            Ok(t) => r matches Ok(x) && x@ == t,
            Err(e) => r matches Err(x) && x == e,
        },
{
    bounded_trimmed(body, MAX_COMMENT_LEN, "empty_comment", "comment_too_long")
}

/// A comment on a non-existent post hits the foreign key: 404, not a fault.
pub fn map_fk(err: DbFailure) -> (r: ApiError)
    ensures
        r == fk_mapped(err, ApiError::NotFound),
{
    ApiError::on_fk_violation(err, ApiError::NotFound)
}

} // verus!
