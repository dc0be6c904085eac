use core_api::error::ApiError;
use core_api::gems::{
    checked_emission, closed_epoch_window, marked_summary, marker_summary, participant_ids,
    settle_action, SettleAction, SettledMarker, SettlementSummary,
};

#[test]
fn participants_are_sorted_and_unique() {
    assert_eq!(participant_ids(&vec![(5, 2), (2, 9), (9, 5), (7, 5)]), vec![2, 5, 7, 9]);
    assert_eq!(participant_ids(&vec![]), Vec::<i64>::new());
    assert_eq!(participant_ids(&vec![(-1, i64::MAX), (i64::MIN, -1)]), vec![i64::MIN, -1, i64::MAX]);
}

#[test]
fn emission_is_checked_on_the_i64_boundary() {
    assert_eq!(checked_emission(false, 1_000), Ok(0));
    assert_eq!(checked_emission(true, 1_000), Ok(1_000));
    assert_eq!(checked_emission(true, i64::MAX as u128), Ok(i64::MAX));
    assert_eq!(
        checked_emission(true, i64::MAX as u128 + 1),
        Err(ApiError::Internal("emission exceeds i64".to_string()))
    );
}

#[test]
fn settled_epochs_are_a_no_op() {
    let marker = SettledMarker { emission: 100, user_count: 3 };
    assert_eq!(
        settle_action(4, true, Some(marker)),
        SettleAction::Done(SettlementSummary { epoch_k: 4, emission: 100, user_count: 3, already_settled: true })
    );
    assert_eq!(settle_action(4, true, None), SettleAction::MintThenMark);
    assert_eq!(settle_action(4, false, None), SettleAction::MarkOnly);
    assert!(!marked_summary(4, 100, 3, true).already_settled);
    assert!(marked_summary(4, 100, 3, false).already_settled);
    let s = marker_summary(4, SettledMarker { emission: 7, user_count: 2 });
    assert_eq!(s, SettlementSummary { epoch_k: 4, emission: 7, user_count: 2, already_settled: true });
}

#[test]
fn repeat_settle_reports_the_recorded_marker() {
    // First settlement: 100 minted to 3 users, marker written with those.
    let first = marked_summary(9, 100, 3, true);
    assert!(!first.already_settled);
    let marker = SettledMarker { emission: first.emission, user_count: first.user_count };
    // Since then every event was retracted: nobody takes part any more.
    let again = settle_action(9, false, Some(marker));
    assert_eq!(
        again,
        SettleAction::Done(SettlementSummary { epoch_k: 9, emission: 100, user_count: 3, already_settled: true })
    );
}

#[test]
fn only_closed_epochs_are_settled() {
    assert_eq!(closed_epoch_window(10, 3), (7, 10));
    assert_eq!(closed_epoch_window(10, 0), (9, 10));
    assert_eq!(closed_epoch_window(10, -5), (9, 10));
    assert_eq!(closed_epoch_window(2, 30), (0, 2));
    assert_eq!(closed_epoch_window(0, 1), (0, 0));
}
