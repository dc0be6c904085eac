//! Auth request/response shapes, the caller's role and principal.

use vstd::prelude::*;
use vstd::string::*;
use crate::text::str_eq;

verus! {

/// A user's authorization role. `User` is the default; `Operator` may run
/// admin actions such as epoch settlement; `Service` is a machine identity
/// (the ingestion pipeline's write-back).
#[derive(Debug, Clone, Copy, PartialEq, Eq, Structural)]
pub enum Role {
    User,
    Operator,
    Service,
}

/// The stored name of a role.
pub open spec fn role_name(r: Role) -> Seq<char> {
    match r {
        Role::User => "user"@,
        Role::Operator => "operator"@,
        Role::Service => "service"@,
    }
}

/// The role a stored name denotes, if any.
pub open spec fn role_of(s: Seq<char>) -> Option<Role> {
    if s == "user"@ {
        Some(Role::User)
    } else if s == "operator"@ {
        Some(Role::Operator)
    } else if s == "service"@ {
        Some(Role::Service)
    } else {
        None
    }
}

impl Role {
    /// The stored name: `user`, `operator` or `service`.
    pub fn as_str(self) -> (r: &'static str)
        ensures
            r@ == role_name(self),
    {
        match self {
            Role::User => "user",
            Role::Operator => "operator",
            Role::Service => "service",
        }
    }

    /// The role a stored name denotes, if any.
    pub fn parse(s: &str) -> (r: Option<Role>)
        ensures
            r == role_of(s@),
    {
        if str_eq(s, "user") {
            Some(Role::User)
        } else if str_eq(s, "operator") {
            Some(Role::Operator)
        } else if str_eq(s, "service") {
            Some(Role::Service)
        } else {
            None
        }
    }
}

/// The authenticated caller behind a session token.
#[derive(Debug, Clone, Copy, PartialEq, Eq)]
pub struct Principal {
    pub user_id: i64,
    pub role: Role,
}

/// Response for `GET /auth/me`.
#[derive(Debug, Clone, PartialEq, Eq)]
pub struct CurrentUser {
    pub user_id: i64,
    pub role: Role,
    pub referral_code: String,
}

impl Principal {
    /// May this caller act on a self-scoped resource owned by `target`? True
    /// for the resource's owner or any operator.
    pub fn can_act_as(&self, target: i64) -> (r: bool)
        ensures
            r == (self.user_id == target || self.role == Role::Operator),
    {
        self.user_id == target || self.role == Role::Operator
    }
}

#[derive(Debug, Clone, PartialEq, Eq)]
pub struct RegisterRequest {
    pub email: String,
    pub password: String,
    pub declared_categories: Vec<String>,
    /// Referral code of the inviting user; an unknown code fails registration.
    pub referral_code: Option<String>,
}

#[derive(Debug, Clone, PartialEq, Eq)]
pub struct LoginRequest {
    pub email: String,
    pub password: String,
}

/// Returned on register/login. The token is shown once; only its hash is
/// stored.
#[derive(Debug, Clone, PartialEq, Eq)]
pub struct AuthResponse {
    pub token: String,
    pub user_id: i64,
}

/// Request for the email-first login step.
#[derive(Debug, Clone, PartialEq, Eq)]
pub struct EmailCheckRequest {
    pub email: String,
}

/// Whether an account exists for the email.
#[derive(Debug, Clone, Copy, PartialEq, Eq)]
pub struct EmailCheckResult {
    pub exists: bool,
}

/// What a one-time email code is for.
#[derive(Debug, Clone, Copy, PartialEq, Eq, Structural)]
pub enum CodePurpose {
    Login,
    PasswordReset,
}

impl CodePurpose {
    /// The stored name of the purpose.
    pub fn as_str(self) -> (r: &'static str)
        ensures
            self == CodePurpose::Login ==> r == "login",
            self == CodePurpose::PasswordReset ==> r == "password_reset",
    {
        match self {
            CodePurpose::Login => "login",
            CodePurpose::PasswordReset => "password_reset",
        }
    }
}


/// Parsing the stored name of a role gives the role back, and only the
/// three names parse.
pub proof fn lemma_role_round_trip(r: Role, s: Seq<char>)
    ensures
        role_of(role_name(r)) == Some(r),
        role_of(s) matches Some(q) ==> role_name(q) == s,
{
    reveal_strlit("user");
    reveal_strlit("operator");
    reveal_strlit("service");
    assert("user"@.len() != "operator"@.len());
    assert("user"@.len() != "service"@.len());
    assert("operator"@.len() != "service"@.len());
}

} // verus!
