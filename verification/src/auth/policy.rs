//! The decisions of the registration, login and recovery flows. The flows
//! themselves (database reads and writes, the clock, mail dispatch) stay with
//! the caller, which follows the answers given here.

use vstd::prelude::*;
use vstd::string::*;
use crate::auth::throttle::{lock_duration, lock_secs_spec};
use crate::auth::token::{sha256_hex, sha256_hex_spec};
use crate::config::parsed_i64_or;
use crate::codec::parse_i64_spec;
use crate::error::{ApiError, DbErrorKind, DbFailure};
use crate::text::{byte_len, contains_char, lowercase, str_eq, to_lowercase, trim, trim_spec, utf8_len};

verus! {

/// Minimum password length, in bytes.
pub const MIN_PASSWORD_LEN: usize = 8;

/// Session lifetime in days when `GAMMA_SESSION_TTL_DAYS` is unset.
pub const DEFAULT_SESSION_TTL_DAYS: i64 = 30;

/// The normal form of an email: trimmed, lower-cased.
pub open spec fn normalized_email(email: Seq<char>) -> Seq<char> {
    lowercase(trim_spec(email))
}

/// Normalise an email exactly as register, login and the code flows do.
pub fn normalize_email(email: &str) -> (r: String)
    ensures
        r@ == normalized_email(email@),
{
    to_lowercase(trim(email))
}

/// Registration input checks on a normalised email and the password.
pub open spec fn registration_spec(email: Seq<char>, password: Seq<char>) -> Result<(), ApiError> {
    if !email.contains('@') || utf8_len(email) < 3 {
        Err(ApiError::Validation("invalid_email"))
    } else if utf8_len(password) < MIN_PASSWORD_LEN {
        Err(ApiError::Validation("weak_password"))
    } else {
        Ok(())
    }
}

/// Check a registration: the (normalised) email must contain `@` and be at
/// least 3 bytes long, the password at least 8 bytes.
pub fn check_registration(email: &str, password: &str) -> (r: Result<(), ApiError>)
    ensures
        r == registration_spec(email@, password@),
{
    if !contains_char(email, '@') || byte_len(email) < 3 {
        return Err(ApiError::Validation("invalid_email"));
    }
    if byte_len(password) < MIN_PASSWORD_LEN {
        return Err(ApiError::Validation("weak_password"));
    }
    Ok(())
}

/// Registration refuses only what it names: with an email that contains
/// `@` and is at least 3 bytes long, every password of at least 8 bytes is
/// accepted, however long; a shorter one is `weak_password`; an email
/// without `@` or under 3 bytes is `invalid_email`, whatever the password.
pub proof fn lemma_registration_accepts(email: Seq<char>, password: Seq<char>)
    ensures
        email.contains('@') && utf8_len(email) >= 3 && utf8_len(password) >= MIN_PASSWORD_LEN
            ==> registration_spec(email, password) == Ok::<(), ApiError>(()),
        email.contains('@') && utf8_len(email) >= 3 && utf8_len(password) < MIN_PASSWORD_LEN
            ==> registration_spec(email, password) == Err::<(), ApiError>(
            ApiError::Validation("weak_password"),
        ),
        !(email.contains('@') && utf8_len(email) >= 3) ==> registration_spec(email, password)
            == Err::<(), ApiError>(ApiError::Validation("invalid_email")),
{
}

/// Check a new password (password reset) before the code is touched.
pub fn check_new_password(password: &str) -> (r: Result<(), ApiError>)
    ensures
        utf8_len(password@) < MIN_PASSWORD_LEN ==> r == Err::<(), ApiError>(ApiError::Validation("weak_password")),
        utf8_len(password@) >= MIN_PASSWORD_LEN ==> r is Ok,
{
    if byte_len(password) < MIN_PASSWORD_LEN {
        return Err(ApiError::Validation("weak_password"));
    }
    Ok(())
}

/// The referral code a registration names: trimmed, and absent when blank.
pub fn referral_code_input(raw: Option<&str>) -> (r: Option<&str>)
    ensures
        match raw {
            None => r is None,
            Some(s) => if trim_spec(s@).len() == 0 {
                r is None
            } else {
                r matches Some(t) && t@ == trim_spec(s@)
            },
        },
{
    match raw {
        None => None,
        Some(s) => {
            let t = trim(s);
            if t.is_empty() {
                None
            } else {
                Some(t)
            }
        },
    }
}

/// The referrer named by a registration's referral code, from the account
/// the code was looked up to: a code that names no account is refused.
pub fn referrer_of(found: Option<i64>) -> (r: Result<i64, ApiError>)
    ensures
        match found {
            Some(id) => r == Ok::<i64, ApiError>(id),
            None => r == Err::<i64, ApiError>(ApiError::Validation("invalid_referral_code")),
        },
{
    match found {
        Some(id) => Ok(id),
        None => Err(ApiError::Validation("invalid_referral_code")),
    }
}

/// Whether a code request issues a code: only for an existing account. An
/// unknown email is answered exactly like a known one, with nothing issued,
/// so the endpoint reveals no account.
pub fn issues_code(account: Option<i64>) -> (r: bool)
    ensures
        r == account is Some,
{
    account.is_some()
}

/// The account a redeemed one-time code signs in: the code must have been
/// consumed just now and its email must still name an account; anything else
/// is the same generic 401.
pub fn redeemed_user(consumed: bool, account: Option<i64>) -> (r: Result<i64, ApiError>)
    ensures
        match account {
            Some(id) => if consumed {
                r == Ok::<i64, ApiError>(id)
            } else {
                r == Err::<i64, ApiError>(ApiError::Unauthorized)
            },
            None => r == Err::<i64, ApiError>(ApiError::Unauthorized),
        },
{
    if !consumed {
        return Err(ApiError::Unauthorized);
    }
    match account {
        Some(id) => Ok(id),
        None => Err(ApiError::Unauthorized),
    }
}

/// The terms frozen on a referral: the referrer's operator-set contract
/// `(bps, duration_epochs)` if there is one, else the defaults; the referral
/// earns up to and including epoch `current_epoch + duration`.
pub fn referral_terms(
    contract: Option<(i32, i64)>,
    default_bps: i32,
    default_duration_epochs: i64,
    current_epoch: u64,
) -> (r: (i32, i64))
    requires
        i64::MIN <= (current_epoch as i64) + (match contract {
            Some((_, d)) => d,
            None => default_duration_epochs,
        }) <= i64::MAX,
    ensures
        match contract {
            Some((b, d)) => r.0 == b && r.1 == (current_epoch as i64) + d,
            None => r.0 == default_bps && r.1 == (current_epoch as i64) + default_duration_epochs,
        },
{
    let (bps, duration) = match contract {
        Some(terms) => terms,
        None => (default_bps, default_duration_epochs),
    };
    let valid_until = current_epoch as i64 + duration;
    (bps, valid_until)
}

/// An instant on the UTC clock: whole seconds since the Unix epoch and the
/// nanoseconds past that second.
#[derive(Debug, Clone, Copy, PartialEq, Eq)]
pub struct UnixTime {
    pub secs: i64,
    pub nanos: u32,
}

/// The instant in nanoseconds since the Unix epoch.
pub open spec fn unix_nanos(t: UnixTime) -> int {
    t.secs * 1_000_000_000 + t.nanos
}

/// Nanoseconds in a second.
pub const NANOS_PER_SEC: i128 = 1_000_000_000;

/// Whole seconds from `now` until `locked_until`: the exact remaining time
/// rounded up, and never below 1.
pub open spec fn retry_after_spec(locked_until: UnixTime, now: UnixTime) -> int {
    let rem = unix_nanos(locked_until) - unix_nanos(now);
    let secs = if rem <= 0 { 0 } else { (rem + 999_999_999) / 1_000_000_000 };
    if secs < 1 { 1 } else { secs }
}

/// Whole seconds until `locked_until`, rounded UP from the exact remaining
/// time so a client that waits the advertised `Retry-After` is never
/// rejected again, and never below 1.
pub fn retry_after_secs(locked_until: UnixTime, now: UnixTime) -> (r: u64)
    requires
        locked_until.secs - now.secs < i64::MAX,
    ensures
        r == retry_after_spec(locked_until, now),
{
    let rem: i128 = (locked_until.secs as i128 - now.secs as i128) * NANOS_PER_SEC
        + (locked_until.nanos as i128 - now.nanos as i128);
    let secs: i128 = if rem <= 0 { 0 } else { (rem + (NANOS_PER_SEC - 1)) / NANOS_PER_SEC };
    if secs < 1 {
        1
    } else {
        secs as u64
    }
}

/// The login throttle fast path: an email whose lock ends after `now` is
/// refused with 429 before any password work; otherwise the attempt
/// proceeds.
pub fn check_login_lock(locked_until: Option<UnixTime>, now: UnixTime) -> (r: Result<(), ApiError>)
    requires
        locked_until matches Some(u) ==> u.secs - now.secs < i64::MAX,
    ensures
        match locked_until {
            Some(u) => if unix_nanos(u) > unix_nanos(now) {
                r == Err::<(), ApiError>(
                    ApiError::TooManyRequests { retry_after_secs: retry_after_spec(u, now) as u64 },
                )
            } else {
                r is Ok
            },
            None => r is Ok,
        },
{
    match locked_until {
        Some(u) => {
            let rem: i128 = (u.secs as i128 - now.secs as i128) * NANOS_PER_SEC
                + (u.nanos as i128 - now.nanos as i128);
            if rem > 0 {
                Err(ApiError::TooManyRequests { retry_after_secs: retry_after_secs(u, now) })
            } else {
                Ok(())
            }
        },
        None => Ok(()),
    }
}

/// What a login attempt leads to after the single password check.
#[derive(Debug, Clone, Copy, PartialEq, Eq)]
pub enum LoginStep {
    /// Issue a session; forget the failure history if there was one.
    IssueSession { user_id: i64, clear_throttle: bool },
    /// Count a failure (and lock per the throttle policy), answer 401.
    RecordFailure,
}

/// Decide a login: only a known account with a matching password succeeds.
pub fn login_step(user_id: Option<i64>, password_ok: bool, had_throttle_row: bool) -> (r:
    LoginStep)
    ensures
        match user_id {
            Some(id) => if password_ok {
                r == LoginStep::IssueSession { user_id: id, clear_throttle: had_throttle_row }
            } else {
                r == LoginStep::RecordFailure
            },
            None => r == LoginStep::RecordFailure,
        },
{
    match user_id {
        Some(id) => if password_ok {
            LoginStep::IssueSession { user_id: id, clear_throttle: had_throttle_row }
        } else {
            LoginStep::RecordFailure
        },
        None => LoginStep::RecordFailure,
    }
}

/// The lock (seconds) to set after a failure that brought the count to
/// `count`; a count outside `u32` counts as zero.
pub fn failure_lock_secs(count: i32) -> (r: Option<u64>)
    ensures
        r == lock_secs_spec(if count >= 0 { count as u32 } else { 0 }),
{
    let c: u32 = if count >= 0 { count as u32 } else { 0 };
    lock_duration(c)
}

/// The verdict on a submitted one-time code whose hash is `computed_hash`,
/// given the stored hash of the live code the attempt was claimed against
/// (`None`: missing, expired or burned). Every failure is the same generic
/// 401.
pub fn code_verdict(claimed_hash: Option<&str>, computed_hash: &str) -> (r: Result<(), ApiError>)
    ensures
        r is Ok <==> (claimed_hash matches Some(h) && h@ == computed_hash@),
        r matches Err(e) ==> e == ApiError::Unauthorized,
{
    match claimed_hash {
        None => Err(ApiError::Unauthorized),
        Some(h) => {
            if !str_eq(computed_hash, h) {
                return Err(ApiError::Unauthorized);
            }
            Ok(())
        },
    }
}

/// Check a submitted one-time code against the claimed stored hash.
pub fn check_code(claimed_hash: Option<&str>, code: &str) -> (r: Result<(), ApiError>)
    ensures
        r is Ok <==> (claimed_hash matches Some(h) && h@ == sha256_hex_spec(code)),
        r matches Err(e) ==> e == ApiError::Unauthorized,
{
    let computed = sha256_hex(code);
    code_verdict(claimed_hash, computed.as_str())
}

/// How long a session is valid, in days: `GAMMA_SESSION_TTL_DAYS` when it
/// parses, else 30.
pub fn session_ttl_days(raw: Option<&str>) -> (r: i64)
    ensures
        r == match raw {
            Some(s) => match parse_i64_spec(s.spec_bytes()) {
                Some(v) => v,
                None => DEFAULT_SESSION_TTL_DAYS,
            },
            None => DEFAULT_SESSION_TTL_DAYS,
        },
{
    parsed_i64_or(raw, DEFAULT_SESSION_TTL_DAYS)
}

/// A unique violation on the email means the address is taken.
pub fn map_create_error(err: DbFailure) -> (r: ApiError)
    ensures
        err.kind == DbErrorKind::UniqueViolation ==> r == ApiError::Conflict("email_taken"),
        err.kind != DbErrorKind::UniqueViolation ==> r == ApiError::Database(err),
{
    if err.kind == DbErrorKind::UniqueViolation {
        return ApiError::Conflict("email_taken");
    }
    ApiError::Database(err)
}


/// Waiting the advertised `Retry-After` always outlasts the lock, and by
/// less than a second: the seconds are never 0, `now` plus them reaches the
/// lock's end, and one second fewer would fall short of a lock still
/// running.
pub proof fn lemma_retry_after_covers_lock(locked_until: UnixTime, now: UnixTime)
    ensures
        retry_after_spec(locked_until, now) >= 1,
        unix_nanos(now) + retry_after_spec(locked_until, now) * 1_000_000_000 >= unix_nanos(locked_until),
        unix_nanos(locked_until) > unix_nanos(now) ==> unix_nanos(now) + (retry_after_spec(
            locked_until,
            now,
        ) - 1) * 1_000_000_000 < unix_nanos(locked_until),
{
}

/// What the single password check of a login runs against: the account's
/// hash, or a fixed dummy hash for an unknown email, so every login costs
/// exactly one verification and timing reveals no account.
pub fn verification_target(credentials: Option<(i64, String)>, dummy_hash: String) -> (r: (
    Option<i64>,
    String,
))
    ensures
        match credentials {
            Some((id, h)) => r.0 == Some(id) && r.1 == h,
            None => r.0 is None && r.1 == dummy_hash,
        },
{
    match credentials {
        Some((id, h)) => (Some(id), h),
        None => (None, dummy_hash),
    }
}

} // verus!
