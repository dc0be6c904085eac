//! Email-code policy: how a one-time code is generated and the fixed
//! lifetime / attempt / cooldown knobs.

use vstd::prelude::*;
use rand::Rng;
use crate::text::string_of;

verus! {

/// A one-time code is valid for this long after issuance (10 minutes).
pub const CODE_TTL_SECS: u64 = 600;

/// Wrong-code guesses allowed before the code is burned.
pub const MAX_ATTEMPTS: i32 = 5;

/// Minimum seconds between two code requests for the same (email, purpose).
pub const REQUEST_COOLDOWN_SECS: u64 = 60;

/// Codes are drawn below this bound.
pub const CODE_SPACE: u32 = 1_000_000;

/// The ASCII digit character for `d < 10`.
pub open spec fn digit_char(d: nat) -> char {
    (48 + d) as char
}

/// `n` written with exactly six decimal digits, zero-padded.
pub open spec fn six_digits(n: nat) -> Seq<char> {
    seq![
        digit_char(n / 100000 % 10),
        digit_char(n / 10000 % 10),
        digit_char(n / 1000 % 10),
        digit_char(n / 100 % 10),
        digit_char(n / 10 % 10),
        digit_char(n % 10),
    ]
}

/// Trusted: `rand::rngs::OsRng.gen_range(0..bound)`. Claims only that the
/// draw lies below `bound` (the range is never empty here). The value comes
/// from the operating system's CSPRNG; the crate panics if that source fails.
#[verifier::external_body]
fn random_below(bound: u32) -> (n: u32)
    requires
        bound > 0,
    ensures
        n < bound,
{
    rand::rngs::OsRng.gen_range(0..bound)
}

/// `n` as a six-digit, zero-padded decimal string.
pub fn format_code(n: u32) -> (r: String)
    requires
        n < CODE_SPACE,
    ensures
        r@ == six_digits(n as nat),
{
    let mut cs: Vec<char> = Vec::new();
    cs.push(((n / 100000 % 10) as u8 + 48u8) as char);
    cs.push(((n / 10000 % 10) as u8 + 48u8) as char);
    cs.push(((n / 1000 % 10) as u8 + 48u8) as char);
    cs.push(((n / 100 % 10) as u8 + 48u8) as char);
    cs.push(((n / 10 % 10) as u8 + 48u8) as char);
    cs.push(((n % 10) as u8 + 48u8) as char);
    assert(cs@ =~= six_digits(n as nat));
    string_of(cs.as_slice())
}

/// A fresh uniformly-random 6-digit code, zero-padded (`"000000"`..=`"999999"`).
pub fn generate_code() -> (r: String)
    ensures
        exists|n: nat| n < CODE_SPACE && r@ == six_digits(n),
{
    let n = random_below(CODE_SPACE);
    format_code(n)
}

} // verus!
