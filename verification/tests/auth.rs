use core_api::auth::extract::{admit_admin, admit_service, bearer_token};
use core_api::auth::model::{CodePurpose, Principal, Role};
use core_api::auth::policy::{
    check_code, check_new_password, check_registration, login_step, map_create_error,
    normalize_email, referral_code_input, referral_terms, session_ttl_days, LoginStep,
};
use core_api::auth::token::{hash_password, hash_token, new_token, sha256_hex, verify_password};
use core_api::error::{ApiError, DbErrorKind, DbFailure};
use core_api::auth::policy::verification_target;
use core_api::auth::policy::code_verdict;
use core_api::auth::token::hash_outcome;
use core_api::auth::policy::{issues_code, redeemed_user, referrer_of};

#[test]
fn sha256_hex_matches_known_vectors() {
    assert_eq!(
        sha256_hex(""),
        "e3b0c44298fc1c149afbf4c8996fb92427ae41e4649b934ca495991b7852b855"
    );
    assert_eq!(
        sha256_hex("abc"),
        "ba7816bf8f01cfea414140de5dae2223b00361a396177a9cb410ff61f20015ad"
    );
    assert_eq!(hash_token("abc"), sha256_hex("abc"));
}

#[test]
fn session_tokens_are_64_hex_chars_and_fresh() {
    let a = new_token();
    let b = new_token();
    assert_eq!(a.len(), 64);
    assert!(a.chars().all(|c| c.is_ascii_hexdigit() && !c.is_ascii_uppercase()));
    assert_ne!(a, b);
}

#[test]
fn password_hash_verifies_only_the_right_password() {
    let h = hash_password("correct horse").unwrap();
    assert!(h.starts_with("$argon2"));
    assert!(verify_password("correct horse", &h));
    assert!(!verify_password("wrong horse", &h));
    assert!(!verify_password("correct horse", "not a phc string"));
}

#[test]
fn emails_are_trimmed_and_lower_cased() {
    assert_eq!(normalize_email("  Alice@Example.COM \n"), "alice@example.com");
}

#[test]
fn registration_requires_an_email_and_a_strong_password() {
    assert_eq!(check_registration("a@b", "12345678"), Ok(()));
    assert_eq!(check_registration("ab", "12345678"), Err(ApiError::Validation("invalid_email")));
    assert_eq!(check_registration("@b", "12345678"), Err(ApiError::Validation("invalid_email")));
    assert_eq!(check_registration("a@b", "1234567"), Err(ApiError::Validation("weak_password")));
    assert_eq!(check_new_password("1234567"), Err(ApiError::Validation("weak_password")));
    assert_eq!(check_new_password("12345678"), Ok(()));
}

#[test]
fn blank_referral_codes_are_absent() {
    assert_eq!(referral_code_input(None), None);
    assert_eq!(referral_code_input(Some("   ")), None);
    assert_eq!(referral_code_input(Some(" AB12 ")), Some("AB12"));
}

#[test]
fn referral_terms_freeze_contract_or_defaults() {
    assert_eq!(referral_terms(Some((250, 10)), 100, 30, 7), (250, 17));
    assert_eq!(referral_terms(None, 100, 30, 7), (100, 37));
}

#[test]
fn only_a_known_account_with_the_right_password_logs_in() {
    assert_eq!(
        login_step(Some(9), true, true),
        LoginStep::IssueSession { user_id: 9, clear_throttle: true }
    );
    assert_eq!(
        login_step(Some(9), true, false),
        LoginStep::IssueSession { user_id: 9, clear_throttle: false }
    );
    assert_eq!(login_step(Some(9), false, true), LoginStep::RecordFailure);
    assert_eq!(login_step(None, true, false), LoginStep::RecordFailure);
}

#[test]
fn one_time_codes_are_checked_against_their_hash() {
    let stored = sha256_hex("123456");
    assert_eq!(check_code(Some(&stored), "123456"), Ok(()));
    assert_eq!(check_code(Some(&stored), "123457"), Err(ApiError::Unauthorized));
    assert_eq!(check_code(None, "123456"), Err(ApiError::Unauthorized));
}

#[test]
fn session_ttl_defaults_to_thirty_days() {
    assert_eq!(session_ttl_days(None), 30);
    assert_eq!(session_ttl_days(Some("7")), 7);
    assert_eq!(session_ttl_days(Some("-2")), -2);
    assert_eq!(session_ttl_days(Some("seven")), 30);
}

#[test]
fn a_taken_email_is_a_conflict() {
    let dup = DbFailure { kind: DbErrorKind::UniqueViolation, message: "dup".to_string() };
    let other = DbFailure { kind: DbErrorKind::Other, message: "x".to_string() };
    assert_eq!(map_create_error(dup), ApiError::Conflict("email_taken"));
    assert_eq!(map_create_error(other.clone()), ApiError::Database(other));
}

#[test]
fn bearer_prefix_is_required() {
    assert_eq!(bearer_token("Bearer abc"), Some("abc"));
    assert_eq!(bearer_token("Bearer "), Some(""));
    assert_eq!(bearer_token("bearer abc"), None);
    assert_eq!(bearer_token("Basic abc"), None);
    assert_eq!(bearer_token("Bearer"), None);
}

#[test]
fn roles_gate_admin_and_service_routes() {
    let user = Principal { user_id: 1, role: Role::User };
    let op = Principal { user_id: 2, role: Role::Operator };
    let svc = Principal { user_id: 3, role: Role::Service };
    assert!(matches!(admit_admin(op), Ok(a) if a.0 == 2));
    assert!(matches!(admit_admin(user), Err(ApiError::Forbidden)));
    assert!(matches!(admit_admin(svc), Err(ApiError::Forbidden)));
    assert!(matches!(admit_service(svc), Ok(s) if s.0 == 3));
    assert!(matches!(admit_service(op), Ok(s) if s.0 == 2));
    assert!(matches!(admit_service(user), Err(ApiError::Forbidden)));
}

#[test]
fn owners_and_operators_may_act_as_a_user() {
    let user = Principal { user_id: 1, role: Role::User };
    let op = Principal { user_id: 2, role: Role::Operator };
    assert!(user.can_act_as(1));
    assert!(!user.can_act_as(5));
    assert!(op.can_act_as(5));
}

#[test]
fn role_and_purpose_names() {
    assert_eq!(Role::parse("operator"), Some(Role::Operator));
    assert_eq!(Role::parse("service"), Some(Role::Service));
    assert_eq!(Role::parse("user"), Some(Role::User));
    assert_eq!(Role::parse("admin"), None);
    assert_eq!(Role::Operator.as_str(), "operator");
    assert_eq!(CodePurpose::Login.as_str(), "login");
    assert_eq!(CodePurpose::PasswordReset.as_str(), "password_reset");
}

#[test]
fn unknown_emails_verify_against_the_dummy_hash() {
    assert_eq!(
        verification_target(Some((4, "h".to_string())), "dummy".to_string()),
        (Some(4), "h".to_string())
    );
    assert_eq!(verification_target(None, "dummy".to_string()), (None, "dummy".to_string()));
}

#[test]
fn code_verdict_compares_hashes() {
    assert_eq!(code_verdict(Some("ab"), "ab"), Ok(()));
    assert_eq!(code_verdict(Some("ab"), "ac"), Err(ApiError::Unauthorized));
    assert_eq!(code_verdict(None, "ab"), Err(ApiError::Unauthorized));
}

#[test]
fn hasher_failures_are_internal_errors() {
    assert_eq!(hash_outcome(Ok("$argon2id$x".to_string())), Ok("$argon2id$x".to_string()));
    assert_eq!(
        hash_outcome(Err("salt too short".to_string())),
        Err(ApiError::Internal("salt too short".to_string()))
    );
}

#[test]
fn unknown_referral_code_is_refused() {
    assert_eq!(referrer_of(Some(42)), Ok(42));
    assert_eq!(referrer_of(None), Err(ApiError::Validation("invalid_referral_code")));
}

#[test]
fn codes_are_issued_only_for_existing_accounts() {
    assert!(issues_code(Some(7)));
    assert!(!issues_code(None));
}

#[test]
fn a_redeemed_code_signs_in_its_account_only_once() {
    assert_eq!(redeemed_user(true, Some(7)), Ok(7));
    assert_eq!(redeemed_user(false, Some(7)), Err(ApiError::Unauthorized));
    assert_eq!(redeemed_user(true, None), Err(ApiError::Unauthorized));
    assert_eq!(redeemed_user(false, None), Err(ApiError::Unauthorized));
}

#[test]
fn empty_and_long_passwords_hash() {
    let h = hash_password("").expect("an empty password hashes");
    assert!(verify_password("", &h));
    assert!(!verify_password("x", &h));
    let long = "p".repeat(10_000);
    let h = hash_password(&long).expect("a long password hashes");
    assert!(verify_password(&long, &h));
}
