use std::time::Duration;

use core_api::auth::policy::{check_login_lock, failure_lock_secs, retry_after_secs, UnixTime};
use core_api::auth::throttle::lock_duration;
use core_api::error::ApiError;

#[test]
fn free_band_has_no_lock() {
    for n in 0..=4 {
        assert_eq!(
            lock_duration(n).map(Duration::from_secs),
            None,
            "failure {n} must not lock"
        );
    }
}

#[test]
fn curve_doubles_from_60s_and_caps_at_15_min() {
    assert_eq!(lock_duration(5).map(Duration::from_secs), Some(Duration::from_secs(60)));
    assert_eq!(lock_duration(6).map(Duration::from_secs), Some(Duration::from_secs(120)));
    assert_eq!(lock_duration(7).map(Duration::from_secs), Some(Duration::from_secs(240)));
    assert_eq!(lock_duration(8).map(Duration::from_secs), Some(Duration::from_secs(480)));
    // 960 would exceed the cap:
    assert_eq!(lock_duration(9).map(Duration::from_secs), Some(Duration::from_secs(900)));
    assert_eq!(lock_duration(100).map(Duration::from_secs), Some(Duration::from_secs(900)));
    assert_eq!(lock_duration(u32::MAX).map(Duration::from_secs), Some(Duration::from_secs(900)));
}

#[test]
fn lock_curve_is_monotone_and_bounded() {
    let mut prev = 0u64;
    for n in 0..=64u32 {
        let secs = lock_duration(n).unwrap_or(0);
        assert!(secs >= prev, "lock must never shrink as failures grow ({n})");
        assert!(secs <= 900);
        prev = secs;
    }
    assert_eq!(lock_duration(36), Some(900));
    assert_eq!(lock_duration(37), Some(900));
}

#[test]
fn failure_count_outside_u32_counts_as_zero() {
    assert_eq!(failure_lock_secs(-3), None);
    assert_eq!(failure_lock_secs(4), None);
    assert_eq!(failure_lock_secs(5), Some(60));
    assert_eq!(failure_lock_secs(i32::MAX), Some(900));
}

fn at(secs: i64, nanos: u32) -> UnixTime {
    UnixTime { secs, nanos }
}

#[test]
fn retry_after_rounds_up_and_is_at_least_one() {
    let now = at(1_000, 0);
    assert_eq!(retry_after_secs(at(995, 0), now), 1);
    assert_eq!(retry_after_secs(at(1_000, 0), now), 1);
    assert_eq!(retry_after_secs(at(1_000, 1_000_000), now), 1);
    assert_eq!(retry_after_secs(at(1_001, 0), now), 1);
    assert_eq!(retry_after_secs(at(1_001, 1_000_000), now), 2);
    assert_eq!(retry_after_secs(at(1_059, 999_000_000), now), 60);
    assert_eq!(retry_after_secs(at(1_900, 0), now), 900);
}

#[test]
fn retry_after_counts_below_a_millisecond() {
    // 2000.5 ms left: waiting 2 s would still be early.
    assert_eq!(retry_after_secs(at(1_002, 500_000), at(1_000, 0)), 3);
    assert_eq!(retry_after_secs(at(1_002, 1), at(1_000, 0)), 3);
    assert_eq!(retry_after_secs(at(1_002, 0), at(1_000, 0)), 2);
    assert_eq!(retry_after_secs(at(1_003, 100), at(1_000, 200)), 3);
    assert_eq!(retry_after_secs(at(1_003, 300), at(1_000, 200)), 4);
}

#[test]
fn locked_email_is_refused_with_429_before_password_work() {
    let now = at(1_000, 0);
    assert_eq!(check_login_lock(None, now), Ok(()));
    assert_eq!(
        check_login_lock(Some(at(1_061, 500_000_000)), now),
        Err(ApiError::TooManyRequests { retry_after_secs: 62 })
    );
}

#[test]
fn waiting_the_advertised_seconds_outlasts_the_lock() {
    let now = at(5_000, 250_000_000);
    for (s, n) in [(5_000i64, 250_000_001u32), (5_001, 0), (5_001, 250_000_000), (5_060, 999_999_999), (5_899, 1)] {
        let secs = retry_after_secs(at(s, n), now);
        let end = s as i128 * 1_000_000_000 + n as i128;
        let start = now.secs as i128 * 1_000_000_000 + now.nanos as i128;
        assert!(start + secs as i128 * 1_000_000_000 >= end);
        assert!(start + (secs as i128 - 1) * 1_000_000_000 < end);
    }
}

#[test]
fn only_a_future_lock_refuses() {
    let now = at(1_000, 500);
    assert_eq!(check_login_lock(Some(at(1_000, 500)), now), Ok(()));
    assert_eq!(check_login_lock(Some(at(999, 900)), now), Ok(()));
    assert_eq!(
        check_login_lock(Some(at(1_000, 501)), now),
        Err(ApiError::TooManyRequests { retry_after_secs: 1 })
    );
}
