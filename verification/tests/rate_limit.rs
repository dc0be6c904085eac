use core_api::error::ApiError;
use core_api::queue::{processing_key, INGESTION_QUEUE_KEY, TRANSCODE_QUEUE_KEY};
use core_api::rate_limit::{
    edge_config, edge_period_ms, rejection_error, AuthRateLimit, EdgeRateLimit,
    RateLimitRejection,
};

#[test]
fn auth_bucket_defaults_and_overrides() {
    assert_eq!(
        AuthRateLimit::from_env(None, None, None, None),
        Some(AuthRateLimit { burst: 5, refill_secs: 2, trust_proxy: false })
    );
    assert_eq!(
        AuthRateLimit::from_env(Some("false"), Some("10"), Some("7"), Some("true")),
        Some(AuthRateLimit { burst: 10, refill_secs: 7, trust_proxy: true })
    );
    assert_eq!(
        AuthRateLimit::from_env(None, Some("many"), Some("-1"), Some("TRUE")),
        Some(AuthRateLimit { burst: 5, refill_secs: 2, trust_proxy: false })
    );
    assert_eq!(AuthRateLimit::from_env(Some("true"), Some("10"), None, None), None);
}

#[test]
fn edge_rate_is_requests_per_second() {
    assert_eq!(edge_period_ms(20), 50);
    assert_eq!(edge_period_ms(1), 1000);
    assert_eq!(edge_period_ms(3), 333);
    assert_eq!(edge_period_ms(1000), 1);
    assert_eq!(edge_period_ms(5000), 1);
    assert_eq!(
        edge_config(None, None, false),
        EdgeRateLimit { period_ms: 50, burst: 100, trust_proxy: false }
    );
    assert_eq!(
        edge_config(Some("10"), Some("30"), true),
        EdgeRateLimit { period_ms: 100, burst: 30, trust_proxy: true }
    );
}

#[test]
fn rejections_share_the_api_error_shape() {
    assert_eq!(
        rejection_error(RateLimitRejection::TooManyRequests { wait_time: 3 }),
        ApiError::TooManyRequests { retry_after_secs: 3 }
    );
    assert_eq!(
        rejection_error(RateLimitRejection::UnableToExtractKey),
        ApiError::Internal("rate limiter could not extract a client key".to_string())
    );
    assert_eq!(
        rejection_error(RateLimitRejection::Other("Some(\"x\")".to_string())),
        ApiError::Internal("rate limiter failure: Some(\"x\")".to_string())
    );
}

#[test]
fn queue_keys() {
    assert_eq!(TRANSCODE_QUEUE_KEY, "gamma:transcode");
    assert_eq!(INGESTION_QUEUE_KEY, "gamma:ingestion");
    assert_eq!(processing_key("gamma:transcode"), "gamma:transcode:processing");
}
