use core_api::comments::{check_comment_body, map_fk as comment_fk};
use core_api::error::{ApiError, DbErrorKind, DbFailure};
use core_api::follows::{check_follow, following_window, map_fk as follow_fk};
use core_api::interactions::{
    check_retractable, normalize_ids, require_visible, visibility_check, VisibilityCheck,
};

#[test]
fn comment_bodies_are_bounded() {
    assert_eq!(check_comment_body("  nice "), Ok("nice"));
    assert_eq!(check_comment_body("\t"), Err(ApiError::Validation("empty_comment")));
    let long = "c".repeat(2001);
    assert_eq!(check_comment_body(&long), Err(ApiError::Validation("comment_too_long")));
    let max = "c".repeat(2000);
    assert_eq!(check_comment_body(&max), Ok(max.as_str()));
}

#[test]
fn foreign_keys_of_comments_and_follows() {
    let fk = DbFailure { kind: DbErrorKind::ForeignKeyViolation, message: String::new() };
    let other = DbFailure { kind: DbErrorKind::Other, message: "x".to_string() };
    assert_eq!(comment_fk(fk.clone()), ApiError::NotFound);
    assert_eq!(follow_fk(fk), ApiError::Validation("unknown_user"));
    assert_eq!(follow_fk(other.clone()), ApiError::Database(other));
}

#[test]
fn nobody_follows_themselves() {
    assert_eq!(check_follow(3, 3), Err(ApiError::Validation("self_follow")));
    assert_eq!(check_follow(3, 4), Ok(()));
}

#[test]
fn following_list_is_paged_within_bounds() {
    assert_eq!(following_window(None, None), (1000, 0));
    assert_eq!(following_window(Some(0), Some(-1)), (1, 0));
    assert_eq!(following_window(Some(5000), Some(7)), (1000, 7));
    assert_eq!(following_window(Some(20), None), (20, 0));
}

#[test]
fn interaction_ids_collapse_to_one_shape() {
    assert_eq!(normalize_ids(Some(1), Some(2), Some(3)), Ok((Some(1), None, None)));
    assert_eq!(normalize_ids(None, Some(2), Some(3)), Ok((None, None, Some(3))));
    assert_eq!(normalize_ids(None, Some(2), None), Ok((None, Some(2), None)));
    assert_eq!(
        normalize_ids(None, None, None),
        Err(ApiError::Validation("interaction_requires_target_or_post"))
    );
    // Normalising twice changes nothing.
    let once = normalize_ids(Some(1), Some(2), None).unwrap();
    assert_eq!(normalize_ids(once.0, once.1, once.2), Ok(once));
}

#[test]
fn content_events_are_checked_for_visibility() {
    assert_eq!(visibility_check(Some(2), None), VisibilityCheck::Post(2));
    assert_eq!(visibility_check(None, Some(3)), VisibilityCheck::Comment(3));
    assert_eq!(visibility_check(None, None), VisibilityCheck::NotNeeded);
    assert_eq!(require_visible(true), Ok(()));
    assert_eq!(require_visible(false), Err(ApiError::NotFound));
    assert_eq!(check_retractable(true), Ok(()));
    assert_eq!(check_retractable(false), Err(ApiError::Validation("only_like_retractable")));
}
