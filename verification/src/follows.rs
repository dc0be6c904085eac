//! Follows: self-follows are refused, a missing account is a client error,
//! and the following list is paged within bounds.

use vstd::prelude::*;
use crate::error::{fk_mapped, ApiError, DbFailure};

verus! {

/// Default page size of the following list (generous: the client derives
/// follow state from it).
pub const DEFAULT_PAGE: i64 = 1000;
/// Largest page of the following list.
pub const MAX_PAGE: i64 = 1000;

/// Nobody follows themselves.
pub fn check_follow(follower: i64, followee: i64) -> (r: Result<(), ApiError>)
    ensures
        follower == followee ==> r == Err::<(), ApiError>(ApiError::Validation("self_follow")),
        follower != followee ==> r is Ok,
{
    if follower == followee {
        return Err(ApiError::Validation("self_follow"));
    }
    Ok(())
}

/// The page of the following list: the limit defaults to 1000 and is
/// clamped to `[1, 1000]`; the offset defaults to 0 and is at least 0.
pub fn following_window(limit: Option<i64>, offset: Option<i64>) -> (r: (i64, i64))
    ensures
        r.0 == match limit {
            None => DEFAULT_PAGE,
            Some(l) => if l < 1 { 1 } else if l > MAX_PAGE { MAX_PAGE } else { l },
        },
        r.1 == match offset {
            None => 0,
            Some(o) => if o < 0 { 0 } else { o },
        },
{
    let l = match limit {
        None => DEFAULT_PAGE,
        Some(l) => l,
    };
    let l = if l < 1 { 1 } else if l > MAX_PAGE { MAX_PAGE } else { l };
    let o = match offset {
        None => 0,
        Some(o) => o,
    };
    (l, if o < 0 { 0 } else { o })
}

/// Following a non-existent account hits the foreign key: a client error.
pub fn map_fk(err: DbFailure) -> (r: ApiError)
    ensures
        r == fk_mapped(err, ApiError::Validation("unknown_user")),
{
    ApiError::on_fk_violation(err, ApiError::Validation("unknown_user"))
}

} // verus!
