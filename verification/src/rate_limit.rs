//! Per-IP rate limiting configuration: the tight bucket on the auth routes
//! and the loose edge backstop, read from their raw settings, and the one
//! 429 shape every rejection is answered with.

use vstd::prelude::*;
use vstd::string::*;
use crate::codec::{parse_u32_spec, parse_u64_spec};
use crate::config::{flag_on, parsed_u32_or, parsed_u64_or};
use crate::error::ApiError;
use crate::text::append_str;

verus! {

/// Auth bucket burst when unset.
pub const DEFAULT_AUTH_BURST: u32 = 5;
/// Auth bucket refill period in seconds when unset (one attempt per 2 s).
pub const DEFAULT_AUTH_REFILL_SECS: u64 = 2;
/// Edge sustained rate in requests per second when unset.
pub const DEFAULT_EDGE_PER_SECOND: u64 = 20;
/// Edge burst when unset.
pub const DEFAULT_EDGE_BURST: u32 = 100;

/// A parsed setting, or its default when unset or not a number.
pub open spec fn setting_u32(raw: Option<&str>, default: u32) -> u32 {
    match raw {
        Some(s) => match parse_u32_spec(s.spec_bytes()) {
            Some(v) => v,
            None => default,
        },
        None => default,
    }
}

/// A parsed setting, or its default when unset or not a number.
pub open spec fn setting_u64(raw: Option<&str>, default: u64) -> u64 {
    match raw {
        Some(s) => match parse_u64_spec(s.spec_bytes()) {
            Some(v) => v,
            None => default,
        },
        None => default,
    }
}

/// A flag is on exactly when it is set to `true`.
pub open spec fn flag_spec(raw: Option<&str>) -> bool {
    match raw {
        Some(s) => s@ == "true"@,
        None => false,
    }
}

/// Config for the tight auth bucket.
#[derive(Debug, Clone, Copy, PartialEq, Eq)]
pub struct AuthRateLimit {
    pub burst: u32,
    pub refill_secs: u64,
    pub trust_proxy: bool,
}

impl AuthRateLimit {
    /// The auth-bucket config from the raw settings (rate limiting disabled
    /// flag, burst, refill seconds, trust-proxy flag), or `None` when rate
    /// limiting is disabled.
    pub fn from_env(
        disabled_raw: Option<&str>,
        burst_raw: Option<&str>,
        refill_raw: Option<&str>,
        trust_proxy_raw: Option<&str>,
    ) -> (r: Option<AuthRateLimit>)
        ensures
            flag_spec(disabled_raw) ==> r is None,
            !flag_spec(disabled_raw) ==> r == Some(
                AuthRateLimit {
                    burst: setting_u32(burst_raw, DEFAULT_AUTH_BURST),
                    refill_secs: setting_u64(refill_raw, DEFAULT_AUTH_REFILL_SECS),
                    trust_proxy: flag_spec(trust_proxy_raw),
                },
            ),
    {
        if flag_on(disabled_raw) {
            return None;
        }
        Some(
            AuthRateLimit {
                burst: parsed_u32_or(burst_raw, DEFAULT_AUTH_BURST),
                refill_secs: parsed_u64_or(refill_raw, DEFAULT_AUTH_REFILL_SECS),
                trust_proxy: flag_on(trust_proxy_raw),
            },
        )
    }
}

/// Config for the loose edge bucket: one token per `period_ms`.
#[derive(Debug, Clone, Copy, PartialEq, Eq)]
pub struct EdgeRateLimit {
    pub period_ms: u64,
    pub burst: u32,
    pub trust_proxy: bool,
}

/// The token period in milliseconds for a sustained rate of `per_second`
/// requests per second, at least 1 ms.
pub open spec fn period_ms_spec(per_second: u64) -> u64 {
    let p: u64 = (1000u64 / per_second) as u64;
    if p < 1 { 1 } else { p }
}

/// Convert requests per second to the token period in milliseconds.
pub fn edge_period_ms(per_second: u64) -> (r: u64)
    requires
        per_second > 0,
    ensures
        r == period_ms_spec(per_second),
{
    let p: u64 = 1000 / per_second;
    if p < 1 { 1 } else { p }
}

/// The edge-bucket config from the raw settings (rate, burst) and the
/// trust-proxy switch. A rate of 0 is a configuration error the caller
/// refuses before this point.
pub fn edge_config(per_second_raw: Option<&str>, burst_raw: Option<&str>, trust_proxy: bool) -> (r:
    EdgeRateLimit)
    requires
        setting_u64(per_second_raw, DEFAULT_EDGE_PER_SECOND) > 0,
    ensures
        r == (EdgeRateLimit {
            period_ms: period_ms_spec(setting_u64(per_second_raw, DEFAULT_EDGE_PER_SECOND)),
            burst: setting_u32(burst_raw, DEFAULT_EDGE_BURST),
            trust_proxy,
        }),
{
    let per_second = parsed_u64_or(per_second_raw, DEFAULT_EDGE_PER_SECOND);
    let burst = parsed_u32_or(burst_raw, DEFAULT_EDGE_BURST);
    EdgeRateLimit { period_ms: edge_period_ms(per_second), burst, trust_proxy }
}

/// Why the rate limiter refused a request.
#[derive(Debug, Clone, PartialEq, Eq)]
pub enum RateLimitRejection {
    /// The bucket is empty; retry after `wait_time` seconds.
    TooManyRequests { wait_time: u64 },
    /// No client key could be extracted.
    UnableToExtractKey,
    /// Any other limiter failure, with its detail.
    Other(String),
}

/// Every rejection in the same shape as `ApiError`: one 429 format whether
/// the bucket or the login throttle fired; limiter faults are internal.
pub fn rejection_error(rej: RateLimitRejection) -> (r: ApiError)
    ensures
        match rej {
            RateLimitRejection::TooManyRequests { wait_time } => r == ApiError::TooManyRequests {
                retry_after_secs: wait_time,
            },
            RateLimitRejection::UnableToExtractKey => r matches ApiError::Internal(m) && m@
                == "rate limiter could not extract a client key"@,
            RateLimitRejection::Other(d) => r matches ApiError::Internal(m) && m@
                == "rate limiter failure: "@ + d@,
        },
{
    match rej {
        RateLimitRejection::TooManyRequests { wait_time } => ApiError::TooManyRequests {
            retry_after_secs: wait_time,
        },
        RateLimitRejection::UnableToExtractKey => {
            let mut m = String::new();
            append_str(&mut m, "rate limiter could not extract a client key");
            ApiError::Internal(m)
        },
        RateLimitRejection::Other(d) => {
            let mut m = String::new();
            append_str(&mut m, "rate limiter failure: ");
            append_str(&mut m, d.as_str());
            ApiError::Internal(m)
        },
    }
}

} // verus!
