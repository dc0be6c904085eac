use core_api::error::{ApiError, DbErrorKind, DbFailure};

#[test]
fn too_many_requests_maps_to_429_with_retry_after() {
    let (status, code, retry_after) =
        ApiError::TooManyRequests { retry_after_secs: 90 }.response_parts();
    assert_eq!(status, 429);
    assert_eq!(code, "rate_limited");
    assert_eq!(retry_after.map(|s| s.to_string()).as_deref(), Some("90"));
}

#[test]
fn every_error_has_its_status_and_code() {
    let db = DbFailure { kind: DbErrorKind::Other, message: "boom".to_string() };
    assert_eq!(ApiError::NotFound.response_parts(), (404, "not_found", None));
    assert_eq!(ApiError::Validation("empty_body").response_parts(), (400, "empty_body", None));
    assert_eq!(ApiError::PaymentRequired.response_parts(), (402, "payment_required", None));
    assert_eq!(ApiError::Unauthorized.response_parts(), (401, "unauthorized", None));
    assert_eq!(ApiError::Forbidden.response_parts(), (403, "forbidden", None));
    assert_eq!(ApiError::Conflict("email_taken").response_parts(), (409, "email_taken", None));
    assert_eq!(ApiError::Database(db).response_parts(), (500, "internal_error", None));
    assert_eq!(
        ApiError::Internal("secret detail".to_string()).response_parts(),
        (500, "internal_error", None)
    );
}

#[test]
fn foreign_key_violations_map_to_the_chosen_error() {
    let fk = DbFailure { kind: DbErrorKind::ForeignKeyViolation, message: "fk".to_string() };
    let other = DbFailure { kind: DbErrorKind::UniqueViolation, message: "dup".to_string() };
    assert_eq!(ApiError::on_fk_violation(fk, ApiError::NotFound), ApiError::NotFound);
    assert_eq!(
        ApiError::on_fk_violation(other.clone(), ApiError::NotFound),
        ApiError::Database(other)
    );
}
