//! The API error type and its mapping to an HTTP status, a stable error code
//! and an optional `Retry-After` value — one place for uniform error handling.

use vstd::prelude::*;

verus! {

/// What the error handling reads of a failed database operation: which
/// constraint (if any) it violated, and the message for the logs.
#[derive(Debug, Clone, Copy, PartialEq, Eq, Structural)]
pub enum DbErrorKind {
    UniqueViolation,
    ForeignKeyViolation,
    Other,
}

/// A failed database operation.
#[derive(Debug, Clone, PartialEq, Eq)]
pub struct DbFailure {
    pub kind: DbErrorKind,
    pub message: String,
}

#[derive(Debug, PartialEq, Eq)]
pub enum ApiError {
    /// The requested resource does not exist → 404.
    NotFound,
    /// Well-formed but invalid request → 400, with a stable machine code.
    Validation(&'static str),
    /// The resource requires a paid unlock the caller doesn't have → 402.
    PaymentRequired,
    /// Missing or invalid authentication → 401.
    Unauthorized,
    /// Authenticated but lacking the required role → 403.
    Forbidden,
    /// A conflicting resource already exists (e.g. email taken) → 409.
    Conflict(&'static str),
    /// Too many attempts → 429, with the wait in seconds (`Retry-After`).
    TooManyRequests { retry_after_secs: u64 },
    /// A database operation failed → 500 (details logged, not leaked).
    Database(DbFailure),
    /// Any other internal failure → 500 (message logged, not returned).
    Internal(String),
}

/// HTTP status codes used by the API.
pub const STATUS_BAD_REQUEST: u16 = 400;
pub const STATUS_UNAUTHORIZED: u16 = 401;
pub const STATUS_PAYMENT_REQUIRED: u16 = 402;
pub const STATUS_FORBIDDEN: u16 = 403;
pub const STATUS_NOT_FOUND: u16 = 404;
pub const STATUS_CONFLICT: u16 = 409;
pub const STATUS_TOO_MANY_REQUESTS: u16 = 429;
pub const STATUS_INTERNAL_SERVER_ERROR: u16 = 500;

/// The response shape of an error: status, error code, `Retry-After` seconds.
pub open spec fn response_parts_spec(e: &ApiError) -> (u16, &'static str, Option<u64>) {
    match e {
        ApiError::NotFound => (STATUS_NOT_FOUND, "not_found", None),
        ApiError::Validation(code) => (STATUS_BAD_REQUEST, *code, None),
        ApiError::PaymentRequired => (STATUS_PAYMENT_REQUIRED, "payment_required", None),
        ApiError::Unauthorized => (STATUS_UNAUTHORIZED, "unauthorized", None),
        ApiError::Forbidden => (STATUS_FORBIDDEN, "forbidden", None),
        ApiError::Conflict(code) => (STATUS_CONFLICT, *code, None),
        ApiError::TooManyRequests { retry_after_secs } => (
            STATUS_TOO_MANY_REQUESTS,
            "rate_limited",
            Some(*retry_after_secs),
        ),
        ApiError::Database(_) => (STATUS_INTERNAL_SERVER_ERROR, "internal_error", None),
        ApiError::Internal(_) => (STATUS_INTERNAL_SERVER_ERROR, "internal_error", None),
    }
}

/// A foreign-key violation becomes `on_fk`; any other failure `Database`.
pub open spec fn fk_mapped(err: DbFailure, on_fk: ApiError) -> ApiError {
    if err.kind == DbErrorKind::ForeignKeyViolation {
        on_fk
    } else {
        ApiError::Database(err)
    }
}

impl ApiError {
    /// Map a foreign-key violation to the caller-chosen error, and any other
    /// database failure to `Database`.
    pub fn on_fk_violation(err: DbFailure, on_fk: ApiError) -> (r: ApiError)
        ensures
            r == fk_mapped(err, on_fk),
    {
        if err.kind == DbErrorKind::ForeignKeyViolation {
            on_fk
        } else {
            ApiError::Database(err)
        }
    }

    /// The HTTP status, the error code returned in the JSON body, and the
    /// `Retry-After` seconds (only for 429). Internal failures share one opaque
    /// code so nothing about SQL or internals leaks.
    pub fn response_parts(&self) -> (r: (u16, &'static str, Option<u64>))
        ensures
            r == response_parts_spec(self),
    {
        match self {
            ApiError::NotFound => (STATUS_NOT_FOUND, "not_found", None),
            ApiError::Validation(code) => (STATUS_BAD_REQUEST, *code, None),
            ApiError::PaymentRequired => (STATUS_PAYMENT_REQUIRED, "payment_required", None),
            ApiError::Unauthorized => (STATUS_UNAUTHORIZED, "unauthorized", None),
            ApiError::Forbidden => (STATUS_FORBIDDEN, "forbidden", None),
            ApiError::Conflict(code) => (STATUS_CONFLICT, *code, None),
            ApiError::TooManyRequests { retry_after_secs } => (
                STATUS_TOO_MANY_REQUESTS,
                "rate_limited",
                Some(*retry_after_secs),
            ),
            ApiError::Database(_) => (STATUS_INTERNAL_SERVER_ERROR, "internal_error", None),
            ApiError::Internal(_) => (STATUS_INTERNAL_SERVER_ERROR, "internal_error", None),
        }
    }
}

} // verus!
