//! Caller identities and the checks that admit them: a bearer token must be
//! present, and admin / service routes demand the matching role.

use vstd::prelude::*;
use vstd::string::*;
use crate::auth::model::{Principal, Role};
use crate::error::ApiError;

verus! {

/// Any authenticated caller (their user id).
pub struct AuthUser(pub i64);

/// A caller proven to hold the `Operator` role.
pub struct AdminUser(pub i64);

/// A caller proven to be a machine service identity, or an operator.
pub struct ServiceUser(pub i64);

/// The authenticated caller with their role.
pub struct Caller(pub Principal);

/// The token of an `Authorization` header value `Bearer <token>`.
pub open spec fn bearer_spec(header: Seq<char>) -> Option<Seq<char>> {
    if header.len() >= 7 && header.take(7) == "Bearer "@ {
        Some(header.skip(7))
    } else {
        None
    }
}

/// Strip the `Bearer ` prefix of an `Authorization` header value.
pub fn bearer_token(header: &str) -> (r: Option<&str>)
    ensures
        match bearer_spec(header@) {
            Some(t) => r matches Some(s) && s@ == t,
            None => r is None,
        },
{
    proof {
        reveal_strlit("Bearer ");
    }
    let n = header.unicode_len();
    if n < 7 {
        return None;
    }
    let prefix = header.get_char(0) == 'B' && header.get_char(1) == 'e' && header.get_char(2) == 'a'
        && header.get_char(3) == 'r' && header.get_char(4) == 'e' && header.get_char(5) == 'r'
        && header.get_char(6) == ' ';
    if !prefix {
        proof {
            if header@.take(7) == "Bearer "@ {
                assert(header@.take(7)[0] == 'B');
                assert(header@.take(7)[1] == 'e');
                assert(header@.take(7)[2] == 'a');
                assert(header@.take(7)[3] == 'r');
                assert(header@.take(7)[4] == 'e');
                assert(header@.take(7)[5] == 'r');
                assert(header@.take(7)[6] == ' ');
            }
        }
        return None;
    }
    assert(header@.take(7) =~= "Bearer "@);
    Some(header.substring_char(7, n))
}

/// Admit an operator to an admin-only route (403 for anyone else).
pub fn admit_admin(caller: Principal) -> (r: Result<AdminUser, ApiError>)
    ensures
        caller.role == Role::Operator ==> (r matches Ok(a) && a.0 == caller.user_id),
        caller.role != Role::Operator ==> (r matches Err(e) && e == ApiError::Forbidden),
{
    if caller.role != Role::Operator {
        return Err(ApiError::Forbidden);
    }
    Ok(AdminUser(caller.user_id))
}

/// Admit a service identity or an operator to a machine write-back route
/// (403 for anyone else).
pub fn admit_service(caller: Principal) -> (r: Result<ServiceUser, ApiError>)
    ensures
        (caller.role == Role::Service || caller.role == Role::Operator) ==> (r matches Ok(s)
            && s.0 == caller.user_id),
        caller.role == Role::User ==> (r matches Err(e) && e == ApiError::Forbidden),
{
    match caller.role {
        Role::Service | Role::Operator => Ok(ServiceUser(caller.user_id)),
        Role::User => Err(ApiError::Forbidden),
    }
}

} // verus!
