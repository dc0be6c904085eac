use core_api::error::ApiError;
use core_api::feed::cursor::{decode, encode, FeedCursor};
use core_api::feed::page::cursor_start;

#[test]
fn round_trips_exactly() {
    let c = FeedCursor {
        ranked_at: 1_752_000_000,
        score_bits: 4614256656552045848, // PI's bits — an arbitrary f64
        last_id: 42,
    };
    assert_eq!(decode(&encode(&c)), Some(c));
}

#[test]
fn rejects_garbage_wrong_version_and_trailing_parts() {
    assert_eq!(decode("not-hex!"), None);
    assert_eq!(decode(&hex::encode("v2.1.2.3")), None);
    assert_eq!(decode(&hex::encode("v1.1.2")), None);
    assert_eq!(decode(&hex::encode("v1.1.2.3.4")), None);
    assert_eq!(decode(&hex::encode("v1.x.2.3")), None);
}

#[test]
fn encoding_is_hex_of_the_dotted_text() {
    let c = FeedCursor { ranked_at: 1, score_bits: 2, last_id: -3 };
    assert_eq!(encode(&c), hex::encode("v1.1.2.-3"));
}

#[test]
fn round_trips_at_the_extremes() {
    for c in [
        FeedCursor { ranked_at: i64::MIN, score_bits: u64::MAX, last_id: i64::MAX },
        FeedCursor { ranked_at: 0, score_bits: 0, last_id: 0 },
        FeedCursor { ranked_at: -1, score_bits: 1, last_id: i64::MIN },
    ] {
        assert_eq!(decode(&encode(&c)), Some(c));
    }
}

#[test]
fn decodes_what_from_str_accepts() {
    assert_eq!(
        decode(&hex::encode("v1.+7.+8.-9")),
        Some(FeedCursor { ranked_at: 7, score_bits: 8, last_id: -9 })
    );
    assert_eq!(decode(&hex::encode("v1.1.-2.3")), None);
    assert_eq!(decode(&hex::encode("v1..2.3")), None);
    assert_eq!(decode(&hex::encode("v1.9223372036854775808.2.3")), None);
    assert_eq!(decode(&hex::encode("V1.1.2.3")), None);
    assert_eq!(decode("76312e312e322e3"), None);
}

#[test]
fn upper_case_hex_is_accepted() {
    let upper = hex::encode("v1.1.2.3").to_uppercase();
    assert_eq!(decode(&upper), Some(FeedCursor { ranked_at: 1, score_bits: 2, last_id: 3 }));
}

#[test]
fn first_page_ranks_at_now() {
    assert_eq!(cursor_start(None, 1_000_000), Ok((1_000_000, None)));
}

#[test]
fn cursor_window_is_enforced() {
    let now = 1_752_000_000;
    let at = |t: i64| encode(&FeedCursor { ranked_at: t, score_bits: 5, last_id: 9 });
    let c = FeedCursor { ranked_at: now - 10, score_bits: 5, last_id: 9 };
    assert_eq!(cursor_start(Some(&at(now - 10)), now), Ok((now - 10, Some(c))));
    assert!(cursor_start(Some(&at(now + 60)), now).is_ok());
    assert_eq!(
        cursor_start(Some(&at(now + 61)), now),
        Err(ApiError::Validation("invalid_cursor"))
    );
    assert!(cursor_start(Some(&at(now - 48 * 3600)), now).is_ok());
    assert_eq!(
        cursor_start(Some(&at(now - 48 * 3600 - 1)), now),
        Err(ApiError::Validation("stale_cursor"))
    );
    assert_eq!(cursor_start(Some("zz"), now), Err(ApiError::Validation("invalid_cursor")));
}
