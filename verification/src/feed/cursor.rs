//! Opaque feed-pagination cursor.
//!
//! The cursor freezes the ranking time of page one and carries the keyset
//! position of the last served item. Encoding:
//! `v1.<ranked_at>.<score_bits>.<last_id>`, hex-wrapped.

use vstd::prelude::*;
use vstd::utf8::*;
use vstd::string::*;
use crate::codec::{
    dec_digits, dec_i64, hex_decodable, hex_decoded, hex_lower, parse_i64_spec, parse_u64_spec,
    ascii_bytes, is_digit, hex_encode, hex_decode, parse_i64_bytes, parse_u64_bytes, push_i64,
    push_decimal, lemma_dec_digits, lemma_hex_round_trip, lemma_parse_dec_i64,
    lemma_parse_dec_u64,
};

verus! {

/// A decoded cursor: the frozen ranking time (unix seconds) and the keyset
/// position (the exact bits of the last served score, and its id).
#[derive(Debug, Clone, Copy, PartialEq, Eq)]
pub struct FeedCursor {
    pub ranked_at: i64,
    pub score_bits: u64,
    pub last_id: i64,
}

/// The plain text `v1.<ranked_at>.<score_bits>.<last_id>` of a cursor.
pub open spec fn cursor_text(c: FeedCursor) -> Seq<u8> {
    seq![118u8, 49u8, 46u8] + dec_i64(c.ranked_at) + seq![46u8] + dec_digits(c.score_bits as nat)
        + seq![46u8] + dec_i64(c.last_id)
}

/// The characters of an encoded cursor: the hex text of its plain text.
pub open spec fn encode_spec(c: FeedCursor) -> Seq<char> {
    hex_lower(cursor_text(c))
}

/// Index of the first `.` in `s`, or `s.len()` when there is none.
pub open spec fn find_dot(s: Seq<u8>) -> nat
    decreases s.len(),
{
    if s.len() == 0 {
        0
    } else if s[0] == 46u8 {
        0
    } else {
        1 + find_dot(s.drop_first())
    }
}

/// The cursor that plain text `t` denotes, following `split('.')`: exactly
/// four parts, the first `v1`, then an `i64`, a `u64` and an `i64` in the
/// grammar of `FromStr`. (A byte outside ASCII can sit in none of these
/// parts, so text that is not UTF-8 is refused here as well.)
pub open spec fn decode_text_spec(t: Seq<u8>) -> Option<FeedCursor> {
    let i0 = find_dot(t);
    if i0 >= t.len() || t.take(i0 as int) != seq![118u8, 49u8] {
        None
    } else {
        let r1 = t.skip(i0 + 1 as int);
        let i1 = find_dot(r1);
        if i1 >= r1.len() {
            None
        } else {
            let r2 = r1.skip(i1 + 1 as int);
            let i2 = find_dot(r2);
            if i2 >= r2.len() {
                None
            } else {
                let r3 = r2.skip(i2 + 1 as int);
                if find_dot(r3) < r3.len() {
                    None
                } else {
                    match (
                        parse_i64_spec(r1.take(i1 as int)),
                        parse_u64_spec(r2.take(i2 as int)),
                        parse_i64_spec(r3),
                    ) {
                        (Some(a), Some(b), Some(c)) => Some(
                            FeedCursor { ranked_at: a, score_bits: b, last_id: c },
                        ),
                        _ => None,
                    }
                }
            }
        }
    }
}

/// The cursor that the bytes `b` of a client-supplied string denote: hex,
/// then the plain text.
pub open spec fn decode_spec(b: Seq<u8>) -> Option<FeedCursor> {
    if hex_decodable(b) {
        decode_text_spec(hex_decoded(b))
    } else {
        None
    }
}

proof fn lemma_find_dot_bounds(s: Seq<u8>)
    ensures
        find_dot(s) <= s.len(),
        find_dot(s) < s.len() ==> s[find_dot(s) as int] == 46u8,
        forall|j: int| 0 <= j < find_dot(s) ==> s[j] != 46u8,
    decreases s.len(),
{
    if s.len() > 0 && s[0] != 46u8 {
        lemma_find_dot_bounds(s.drop_first());
        assert forall|j: int| 0 <= j < find_dot(s) implies s[j] != 46u8 by {
            if j > 0 {
                assert(s[j] == s.drop_first()[j - 1]);
            }
        }
    }
}

proof fn lemma_find_dot_at(s: Seq<u8>, k: int)
    requires
        0 <= k <= s.len(),
        forall|j: int| 0 <= j < k ==> s[j] != 46u8,
        k == s.len() || s[k] == 46u8,
    ensures
        find_dot(s) == k,
    decreases s.len(),
{
    if k > 0 {
        lemma_find_dot_at(s.drop_first(), k - 1);
    }
}

/// Index of the first `.` at or after `start`, or `t.len()`.
fn find_dot_from(t: &[u8], start: usize) -> (r: usize)
    requires
        start <= t.len(),
    ensures
        r == start + find_dot(t@.skip(start as int)),
        r <= t.len(),
{
    let mut i = start;
    while i < t.len() && t[i] != 46u8
        invariant
            start <= i <= t.len(),
            forall|j: int| start <= j < i ==> t@[j] != 46u8,
        decreases t.len() - i,
    {
        i += 1;
    }
    proof {
        let s = t@.skip(start as int);
        assert forall|j: int| 0 <= j < i - start implies s[j] != 46u8 by {
            assert(s[j] == t@[start + j]);
        }
        lemma_find_dot_at(s, i - start);
    }
    i
}

/// Decode plain cursor text.
fn decode_text(t: &[u8]) -> (r: Option<FeedCursor>)
    ensures
        r == decode_text_spec(t@),
{
    let n = t.len();
    let ghost s = t@;
    let i0 = find_dot_from(t, 0);
    assert(s.skip(0) =~= s);
    if i0 >= n {
        return None;
    }
    if !(i0 == 2 && t[0] == 118u8 && t[1] == 49u8) {
        proof {
            if s.take(i0 as int) == seq![118u8, 49u8] {
                assert(s.take(i0 as int).len() == 2);
                assert(s.take(i0 as int)[0] == 118u8);
                assert(s.take(i0 as int)[1] == 49u8);
            }
        }
        return None;
    }
    assert(s.take(i0 as int) =~= seq![118u8, 49u8]);
    let ghost r1 = s.skip(i0 + 1);
    let i1 = find_dot_from(t, i0 + 1);
    if i1 >= n {
        return None;
    }
    let ghost k1 = (i1 - (i0 + 1)) as int;
    assert(r1.take(k1) =~= s.subrange(i0 + 1, i1 as int));
    let ghost r2 = r1.skip(k1 + 1);
    assert(r2 =~= s.skip(i1 + 1));
    let i2 = find_dot_from(t, i1 + 1);
    if i2 >= n {
        return None;
    }
    let ghost k2 = (i2 - (i1 + 1)) as int;
    assert(r2.take(k2) =~= s.subrange(i1 + 1, i2 as int));
    let ghost r3 = r2.skip(k2 + 1);
    assert(r3 =~= s.skip(i2 + 1));
    assert(r3 =~= s.subrange(i2 + 1, n as int));
    let i3 = find_dot_from(t, i2 + 1);
    if i3 < n {
        return None;
    }
    let ranked_at = match parse_i64_bytes(t, i0 + 1, i1) {
        Some(v) => v,
        None => return None,
    };
    let score_bits = match parse_u64_bytes(t, i1 + 1, i2) {
        Some(v) => v,
        None => return None,
    };
    let last_id = match parse_i64_bytes(t, i2 + 1, n) {
        Some(v) => v,
        None => return None,
    };
    Some(FeedCursor { ranked_at, score_bits, last_id })
}

/// Encode a cursor as opaque hex text.
pub fn encode(c: &FeedCursor) -> (r: String)
    ensures
        r@ == encode_spec(*c),
{
    let mut t: Vec<u8> = Vec::new();
    t.push(118u8);
    t.push(49u8);
    t.push(46u8);
    push_i64(&mut t, c.ranked_at);
    t.push(46u8);
    push_decimal(&mut t, c.score_bits);
    t.push(46u8);
    push_i64(&mut t, c.last_id);
    assert(t@ =~= cursor_text(*c));
    hex_encode(t.as_slice())
}

/// `None` for anything that is not a well-formed v1 cursor.
pub fn decode(s: &str) -> (r: Option<FeedCursor>)
    ensures
        r == decode_spec(s.spec_bytes()),
{
    let bytes = match hex_decode(s.as_bytes()) {
        Some(v) => v,
        None => return None,
    };
    decode_text(bytes.as_slice())
}

proof fn lemma_dec_no_dot(x: i64)
    ensures
        forall|j: int| 0 <= j < dec_i64(x).len() ==> dec_i64(x)[j] != 46u8,
        dec_i64(x).len() > 0,
{
    if x < 0 {
        lemma_dec_digits((0 - x) as nat);
        assert forall|j: int| 0 <= j < dec_i64(x).len() implies dec_i64(x)[j] != 46u8 by {
            if j > 0 {
                assert(dec_i64(x)[j] == dec_digits((0 - x) as nat)[j - 1]);
            }
        }
    } else {
        lemma_dec_digits(x as nat);
    }
}

proof fn lemma_dot_split(a: Seq<u8>, rest: Seq<u8>)
    requires
        forall|j: int| 0 <= j < a.len() ==> a[j] != 46u8,
    ensures
        find_dot(a + seq![46u8] + rest) == a.len(),
        (a + seq![46u8] + rest).take(a.len() as int) =~= a,
        (a + seq![46u8] + rest).skip(a.len() + 1 as int) =~= rest,
{
    let s = a + seq![46u8] + rest;
    assert forall|j: int| 0 <= j < a.len() implies s[j] != 46u8 by {
        assert(s[j] == a[j]);
    }
    lemma_find_dot_at(s, a.len() as int);
}

proof fn lemma_text_round_trip(c: FeedCursor)
    ensures
        decode_text_spec(cursor_text(c)) == Some(c),
{
    let t = cursor_text(c);
    let a = dec_i64(c.ranked_at);
    let b = dec_digits(c.score_bits as nat);
    let d = dec_i64(c.last_id);
    lemma_dec_no_dot(c.ranked_at);
    lemma_dec_no_dot(c.last_id);
    lemma_dec_digits(c.score_bits as nat);
    assert forall|j: int| 0 <= j < b.len() implies b[j] != 46u8 by {
        assert(is_digit(b[j]));
    }
    let v1 = seq![118u8, 49u8];
    assert(t =~= v1 + seq![46u8] + (a + seq![46u8] + (b + seq![46u8] + d)));
    lemma_dot_split(v1, a + seq![46u8] + (b + seq![46u8] + d));
    lemma_dot_split(a, b + seq![46u8] + d);
    lemma_dot_split(b, d);
    lemma_find_dot_bounds(d);
    lemma_parse_dec_i64(c.ranked_at);
    lemma_parse_dec_u64(c.score_bits);
    lemma_parse_dec_i64(c.last_id);
}

/// Decoding an encoded cursor gives the cursor back, exactly.
pub proof fn lemma_cursor_round_trip(c: FeedCursor)
    ensures
        decode_spec(encode_utf8(encode_spec(c))) == Some(c),
{
    let t = cursor_text(c);
    let cs = encode_spec(c);
    assert(is_ascii_chars(cs));
    is_ascii_chars_encode_utf8(cs);
    assert(encode_utf8(cs) =~= ascii_bytes(cs));
    lemma_hex_round_trip(t);
    lemma_text_round_trip(c);
}

} // verus!
