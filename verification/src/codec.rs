//! Byte-level codecs: decimal integers in the grammar of Rust's `FromStr`
//! for integers, and lower-case hexadecimal (through the `hex` crate).

use vstd::prelude::*;

verus! {

/// An ASCII decimal digit.
pub open spec fn is_digit(b: u8) -> bool {
    48 <= b <= 57
}

/// Every byte is an ASCII decimal digit.
pub open spec fn all_digits(s: Seq<u8>) -> bool {
    forall|i: int| 0 <= i < s.len() ==> is_digit(#[trigger] s[i])
}

/// The value of a string of decimal digits.
pub open spec fn digits_value(s: Seq<u8>) -> nat
    decreases s.len(),
{
    if s.len() == 0 {
        0
    } else {
        digits_value(s.drop_last()) * 10 + (s.last() - 48) as nat
    }
}

/// The value that `FromStr` gives an unsigned integer type whose largest value
/// is `max`: an optional `+`, then at least one digit, and no overflow.
pub open spec fn parse_unsigned_spec(s: Seq<u8>, max: nat) -> Option<nat> {
    let body = if s.len() > 0 && s[0] == 43u8 { s.drop_first() } else { s };
    if body.len() > 0 && all_digits(body) && digits_value(body) <= max {
        Some(digits_value(body))
    } else {
        None
    }
}

/// `<u64 as FromStr>::from_str` on the bytes `s`.
pub open spec fn parse_u64_spec(s: Seq<u8>) -> Option<u64> {
    match parse_unsigned_spec(s, u64::MAX as nat) {
        Some(v) => Some(v as u64),
        None => None,
    }
}

/// `<u32 as FromStr>::from_str` on the bytes `s`.
pub open spec fn parse_u32_spec(s: Seq<u8>) -> Option<u32> {
    match parse_unsigned_spec(s, u32::MAX as nat) {
        Some(v) => Some(v as u32),
        None => None,
    }
}

/// `<i64 as FromStr>::from_str` on the bytes `s`: an optional sign, then at
/// least one digit, and a value within `i64`.
pub open spec fn parse_i64_spec(s: Seq<u8>) -> Option<i64> {
    if s.len() > 0 && s[0] == 45u8 {
        let body = s.drop_first();
        if body.len() > 0 && all_digits(body) && digits_value(body) <= 0x8000_0000_0000_0000 {
            Some((0 - digits_value(body)) as i64)
        } else {
            None
        }
    } else {
        match parse_unsigned_spec(s, i64::MAX as nat) {
            Some(v) => Some(v as i64),
            None => None,
        }
    }
}

/// The shortest decimal digits of `n`.
pub open spec fn dec_digits(n: nat) -> Seq<u8>
    decreases n,
{
    if n < 10 {
        seq![(48 + n) as u8]
    } else {
        dec_digits(n / 10).push((48 + n % 10) as u8)
    }
}

/// `x` written as `Display` writes an `i64`.
pub open spec fn dec_i64(x: i64) -> Seq<u8> {
    if x < 0 {
        seq![45u8] + dec_digits((0 - x) as nat)
    } else {
        dec_digits(x as nat)
    }
}

/// A prefix of a digit string never has a larger value than the whole.
pub proof fn lemma_digits_prefix_le(s: Seq<u8>, k: int)
    requires
        0 <= k <= s.len(),
        all_digits(s),
    ensures
        digits_value(s.take(k)) <= digits_value(s),
    decreases s.len(),
{
    if k < s.len() {
        assert(s.drop_last().take(k) =~= s.take(k));
        lemma_digits_prefix_le(s.drop_last(), k);
    } else {
        assert(s.take(k) =~= s);
    }
}

/// `dec_digits(n)` is a non-empty digit string whose value is `n`.
pub proof fn lemma_dec_digits(n: nat)
    ensures
        dec_digits(n).len() > 0,
        all_digits(dec_digits(n)),
        digits_value(dec_digits(n)) == n,
        is_digit(dec_digits(n)[0]),
    decreases n,
{
    if n >= 10 {
        lemma_dec_digits(n / 10);
        let d = dec_digits(n);
        assert(d.drop_last() =~= dec_digits(n / 10));
        assert(d[0] == dec_digits(n / 10)[0]);
        assert(d.last() == (48 + n % 10) as u8);
        assert(n % 10 < 10);
        assert((d.last() - 48) as nat == n % 10);
        assert(digits_value(d) == digits_value(d.drop_last()) * 10 + (d.last() - 48) as nat);
        assert((n / 10) * 10 + n % 10 == n) by (nonlinear_arith);
    } else {
        let d = dec_digits(n);
        assert(d.drop_last() =~= Seq::<u8>::empty());
        assert(digits_value(d) == digits_value(d.drop_last()) * 10 + (d.last() - 48) as nat);
    }
}

/// Decimal digits of `n` parse back to `n` under the unsigned grammar.
pub proof fn lemma_parse_dec_u64(n: u64)
    ensures
        parse_u64_spec(dec_digits(n as nat)) == Some(n),
{
    lemma_dec_digits(n as nat);
}

/// The `Display` text of an `i64` parses back to it.
pub proof fn lemma_parse_dec_i64(x: i64)
    ensures
        parse_i64_spec(dec_i64(x)) == Some(x),
{
    if x < 0 {
        let m = (0 - x) as nat;
        lemma_dec_digits(m);
        let s = dec_i64(x);
        assert(s.drop_first() =~= dec_digits(m));
    } else {
        lemma_dec_digits(x as nat);
    }
}

/// Whether `v[lo..hi]` holds only digits.
fn digits_only(v: &[u8], lo: usize, hi: usize) -> (r: bool)
    requires
        lo <= hi <= v.len(),
    ensures
        r == all_digits(v@.subrange(lo as int, hi as int)),
{
    let mut i = lo;
    while i < hi
        invariant
            lo <= i <= hi <= v.len(),
            forall|j: int| lo <= j < i ==> is_digit(v@[j]),
        decreases hi - i,
    {
        if v[i] < 48 || v[i] > 57 {
            assert(!is_digit(v@.subrange(lo as int, hi as int)[i - lo]));
            return false;
        }
        i += 1;
    }
    assert forall|j: int| 0 <= j < hi - lo implies is_digit(
        #[trigger] v@.subrange(lo as int, hi as int)[j],
    ) by {
        assert(is_digit(v@[lo + j]));
    }
    true
}

/// The value of the digit string `v[lo..hi]`, or `None` when it exceeds
/// `u64::MAX`.
fn digits_u64(v: &[u8], lo: usize, hi: usize) -> (r: Option<u64>)
    requires
        lo <= hi <= v.len(),
        all_digits(v@.subrange(lo as int, hi as int)),
    ensures
        match r {
            Some(x) => x == digits_value(v@.subrange(lo as int, hi as int)),
            None => digits_value(v@.subrange(lo as int, hi as int)) > u64::MAX,
        },
{
    let ghost whole = v@.subrange(lo as int, hi as int);
    let mut acc: u64 = 0;
    let mut i = lo;
    while i < hi
        invariant
            lo <= i <= hi <= v.len(),
            whole == v@.subrange(lo as int, hi as int),
            all_digits(whole),
            acc == digits_value(v@.subrange(lo as int, i as int)),
        decreases hi - i,
    {
        let ghost next = v@.subrange(lo as int, i + 1);
        assert(next.drop_last() =~= v@.subrange(lo as int, i as int));
        assert(next =~= whole.take(i + 1 - lo));
        assert(is_digit(whole[i - lo]));
        let d = (v[i] - 48) as u64;
        match acc.checked_mul(10) {
            None => {
                proof {
                    lemma_digits_prefix_le(whole, i + 1 - lo);
                }
                return None;
            },
            Some(m) => match m.checked_add(d) {
                None => {
                    proof {
                        lemma_digits_prefix_le(whole, i + 1 - lo);
                    }
                    return None;
                },
                Some(a) => {
                    acc = a;
                },
            },
        }
        i += 1;
    }
    Some(acc)
}

/// Parse `v[lo..hi]` as `FromStr` parses an unsigned integer bounded by `max`.
fn parse_unsigned(v: &[u8], lo: usize, hi: usize, max: u64) -> (r: Option<u64>)
    requires
        lo <= hi <= v.len(),
    ensures
        match parse_unsigned_spec(v@.subrange(lo as int, hi as int), max as nat) {
            Some(n) => r == Some(n as u64),
            None => r is None,
        },
{
    let ghost s = v@.subrange(lo as int, hi as int);
    let start = if lo < hi && v[lo] == 43u8 {
        assert(s.drop_first() =~= v@.subrange(lo + 1, hi as int));
        lo + 1
    } else {
        lo
    };
    if start == hi || !digits_only(v, start, hi) {
        return None;
    }
    match digits_u64(v, start, hi) {
        Some(x) => if x <= max {
            Some(x)
        } else {
            None
        },
        None => None,
    }
}

/// `<u64 as FromStr>::from_str` on `v[lo..hi]`.
pub fn parse_u64_bytes(v: &[u8], lo: usize, hi: usize) -> (r: Option<u64>)
    requires
        lo <= hi <= v.len(),
    ensures
        r == parse_u64_spec(v@.subrange(lo as int, hi as int)),
{
    parse_unsigned(v, lo, hi, u64::MAX)
}

/// `<u32 as FromStr>::from_str` on `v[lo..hi]`.
pub fn parse_u32_bytes(v: &[u8], lo: usize, hi: usize) -> (r: Option<u32>)
    requires
        lo <= hi <= v.len(),
    ensures
        r == parse_u32_spec(v@.subrange(lo as int, hi as int)),
{
    match parse_unsigned(v, lo, hi, u32::MAX as u64) {
        Some(x) => Some(x as u32),
        None => None,
    }
}

/// `<i64 as FromStr>::from_str` on `v[lo..hi]`.
pub fn parse_i64_bytes(v: &[u8], lo: usize, hi: usize) -> (r: Option<i64>)
    requires
        lo <= hi <= v.len(),
    ensures
        r == parse_i64_spec(v@.subrange(lo as int, hi as int)),
{
    let ghost s = v@.subrange(lo as int, hi as int);
    if lo < hi && v[lo] == 45u8 {
        assert(s.drop_first() =~= v@.subrange(lo + 1, hi as int));
        if lo + 1 == hi || !digits_only(v, lo + 1, hi) {
            return None;
        }
        match digits_u64(v, lo + 1, hi) {
            Some(x) => if x <= 0x8000_0000_0000_0000u64 {
                let neg: i128 = 0 - (x as i128);
                Some(neg as i64)
            } else {
                None
            },
            None => None,
        }
    } else {
        match parse_unsigned(v, lo, hi, i64::MAX as u64) {
            Some(x) => Some(x as i64),
            None => None,
        }
    }
}

/// Append the decimal digits of `n`.
pub fn push_decimal(out: &mut Vec<u8>, n: u64)
    ensures
        final(out)@ == old(out)@ + dec_digits(n as nat),
    decreases n,
{
    if n >= 10 {
        push_decimal(out, n / 10);
    }
    out.push((48 + n % 10) as u8);
    proof {
        if n >= 10 {
            assert(old(out)@ + dec_digits(n as nat) =~= old(out)@ + dec_digits((n / 10) as nat) + seq![(48 + n % 10) as u8]);
        }
    }
}

/// Append `x` as `Display` writes an `i64`.
pub fn push_i64(out: &mut Vec<u8>, x: i64)
    ensures
        final(out)@ == old(out)@ + dec_i64(x),
{
    if x < 0 {
        out.push(45u8);
        let m: u64 = (0 - (x as i128)) as u64;
        push_decimal(out, m);
        proof {
            assert(old(out)@ + dec_i64(x) =~= old(out)@.push(45u8) + dec_digits(m as nat));
        }
    } else {
        push_decimal(out, x as u64);
    }
}

/// The lower-case hexadecimal digit for a nibble value.
pub open spec fn hex_digit(v: int) -> char {
    if v < 10 {
        (48 + v) as char
    } else {
        (87 + v) as char
    }
}

/// Lower-case hexadecimal text of `bytes`: two digits per byte, high nibble
/// first.
pub open spec fn hex_lower(bytes: Seq<u8>) -> Seq<char> {
    Seq::new(
        2 * bytes.len(),
        |i: int|
            hex_digit(
                if i % 2 == 0 {
                    bytes[i / 2] / 16
                } else {
                    bytes[i / 2] % 16
                } as int,
            ),
    )
}

/// The nibble a hexadecimal digit byte stands for (either case).
pub open spec fn hex_value(b: u8) -> Option<int> {
    if 48 <= b <= 57 {
        Some(b - 48)
    } else if 65 <= b <= 70 {
        Some(b - 55)
    } else if 97 <= b <= 102 {
        Some(b - 87)
    } else {
        None
    }
}

/// Whether `hex::decode` accepts `s`: even length, hexadecimal digits only.
pub open spec fn hex_decodable(s: Seq<u8>) -> bool {
    &&& s.len() % 2 == 0
    &&& forall|i: int| 0 <= i < s.len() ==> (#[trigger] hex_value(s[i])) is Some
}

/// The bytes that `hex::decode` produces from an accepted `s`.
pub open spec fn hex_decoded(s: Seq<u8>) -> Seq<u8> {
    Seq::new(
        s.len() / 2,
        |i: int| (hex_value(s[2 * i])->0 * 16 + hex_value(s[2 * i + 1])->0) as u8,
    )
}

/// Trusted: `hex::encode`. Claims the result is the lower-case hexadecimal
/// text of the input, two digits per byte, high nibble first (the crate's
/// `HEX_CHARS_LOWER` table).
#[verifier::external_body]
pub(crate) fn hex_encode(data: &[u8]) -> (r: String)
    ensures
        r@ == hex_lower(data@),
{
    hex::encode(data)
}

/// Trusted: `hex::decode`. Claims that it succeeds exactly on even-length
/// input of hexadecimal digits of either case, and then yields one byte per
/// digit pair, high nibble first; the error value is dropped.
#[verifier::external_body]
pub(crate) fn hex_decode(data: &[u8]) -> (r: Option<Vec<u8>>)
    ensures
        r is Some <==> hex_decodable(data@),
        r matches Some(v) ==> v@ == hex_decoded(data@),
{
    hex::decode(data).ok()
}

/// The bytes of the ASCII characters `cs`.
pub open spec fn ascii_bytes(cs: Seq<char>) -> Seq<u8> {
    Seq::new(cs.len(), |i: int| cs[i] as u8)
}

/// Hexadecimal text decodes back to the bytes it encodes.
pub proof fn lemma_hex_round_trip(bytes: Seq<u8>)
    ensures
        hex_decodable(ascii_bytes(hex_lower(bytes))),
        hex_decoded(ascii_bytes(hex_lower(bytes))) =~= bytes,
{
    let h = ascii_bytes(hex_lower(bytes));
    assert forall|i: int| 0 <= i < h.len() implies (#[trigger] hex_value(h[i])) is Some && hex_value(h[i])->0 == (if i % 2 == 0 { bytes[i / 2] / 16 } else { bytes[i / 2] % 16 }) as int by {
        let v = (if i % 2 == 0 { bytes[i / 2] / 16 } else { bytes[i / 2] % 16 }) as int;
        assert(0 <= v < 16);
    }
    assert forall|i: int| 0 <= i < bytes.len() implies #[trigger] hex_decoded(h)[i] == bytes[i] by {
        assert(hex_value(h[2 * i])->0 == bytes[i] / 16) by {
            assert((2 * i) % 2 == 0);
            assert((2 * i) / 2 == i);
        }
        assert(hex_value(h[2 * i + 1])->0 == bytes[i] % 16) by {
            assert((2 * i + 1) % 2 == 1);
            assert((2 * i + 1) / 2 == i);
        }
    }
}

} // verus!
