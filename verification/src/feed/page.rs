//! Where a feed page starts: the frozen ranking time and the keyset position
//! carried by the client's cursor, after the freshness checks.

use vstd::prelude::*;
use vstd::string::*;
use crate::error::ApiError;
use vstd::utf8::*;
use crate::feed::cursor::{FeedCursor, decode, decode_spec, encode, encode_spec, lemma_cursor_round_trip};
use crate::feed::rank::{
    clamp_limit, lemma_pages_chain, order_key_spec, page_spec, rank_page, ranked_prefix, RankedItem,
    RankedPage,
};

verus! {

/// A cursor older than the 48h candidate window is stale.
pub const CURSOR_MAX_AGE_SECS: i64 = 172800;

/// Allowance for clock skew on a cursor's ranking time.
pub const CURSOR_FUTURE_SKEW_SECS: i64 = 60;

/// The page size when the request names none.
pub fn default_limit() -> (r: usize)
    ensures
        r == 50,
{
    50
}

/// The start of a page at wall-clock second `now`: for the first page the
/// ranking time is `now`; a cursor must decode (else `invalid_cursor`), must
/// not lie more than 60 s in the future (else `invalid_cursor`) and not more
/// than 48 h in the past (else `stale_cursor`).
pub open spec fn cursor_start_spec(cursor: Option<Seq<u8>>, now: i64) -> Result<
    (i64, Option<FeedCursor>),
    ApiError,
> {
    match cursor {
        None => Ok((now, None)),
        Some(raw) => match decode_spec(raw) {
            None => Err(ApiError::Validation("invalid_cursor")),
            Some(c) => if c.ranked_at > now + CURSOR_FUTURE_SKEW_SECS {
                Err(ApiError::Validation("invalid_cursor"))
            } else if now - c.ranked_at > CURSOR_MAX_AGE_SECS {
                Err(ApiError::Validation("stale_cursor"))
            } else {
                Ok((c.ranked_at, Some(c)))
            },
        },
    }
}

/// The ranking time and keyset position of the requested page (see
/// `cursor_start_spec`; the cursor is taken by its UTF-8 bytes).
pub fn cursor_start(cursor: Option<&str>, now: i64) -> (r: Result<(i64, Option<FeedCursor>), ApiError>)
    ensures
        r == cursor_start_spec(
            match cursor {
                Some(s) => Some(s.spec_bytes()),
                None => None,
            },
            now,
        ),
{
    match cursor {
        None => Ok((now, None)),
        Some(raw) => match decode(raw) {
            None => Err(ApiError::Validation("invalid_cursor")),
            Some(c) => {
                let ranked = c.ranked_at as i128;
                let now_wide = now as i128;
                if ranked > now_wide + CURSOR_FUTURE_SKEW_SECS as i128 {
                    Err(ApiError::Validation("invalid_cursor"))
                } else if now_wide - ranked > CURSOR_MAX_AGE_SECS as i128 {
                    Err(ApiError::Validation("stale_cursor"))
                } else {
                    Ok((c.ranked_at, Some(c)))
                }
            },
        },
    }
}


/// The cursor that continues after a page: present exactly when more items
/// follow, holding the frozen ranking time and the position (score bits, id)
/// of the page's last item.
pub open spec fn next_cursor_spec(
    ranked_at: i64,
    items: Seq<RankedItem>,
    score_bits: Seq<u64>,
    out: Seq<usize>,
    has_more: bool,
) -> Option<Seq<char>> {
    if has_more && out.len() > 0 {
        let last = out.last() as int;
        Some(
            encode_spec(
                FeedCursor { ranked_at, score_bits: score_bits[last], last_id: items[last].id },
            ),
        )
    } else {
        None
    }
}

/// One page of the ranked feed and the cursor to the next one. `items` are
/// the candidates (order key and id), `score_bits` the bits of each
/// candidate's score, position by position.
pub fn select_page(
    items: &Vec<RankedItem>,
    score_bits: &Vec<u64>,
    after: Option<(u64, i64)>,
    limit: usize,
    ranked_at: i64,
) -> (r: (RankedPage, Option<String>))
    requires
        score_bits@.len() == items@.len(),
    ensures
        page_spec(items@, after, limit, r.0.indices@, r.0.has_more),
        match next_cursor_spec(ranked_at, items@, score_bits@, r.0.indices@, r.0.has_more) {
            Some(t) => r.1 matches Some(c) && c@ == t,
            None => r.1 is None,
        },
{
    let page = rank_page(items, after, limit);
    let n = page.indices.len();
    if page.has_more && n > 0 {
        let last = page.indices[n - 1];
        let c = FeedCursor { ranked_at, score_bits: score_bits[last], last_id: items[last].id };
        let text = encode(&c);
        (page, Some(text))
    } else {
        (page, None)
    }
}

/// A later page is ranked with the clock of page one: whatever cursor page
/// one handed out, presenting it again at any moment from page one's ranking
/// time up to 48 h later starts the page at that same ranking time and at
/// the cursor's position; presented at 48 h and one second it is stale.
pub proof fn lemma_later_pages_keep_first_clock(
    now1: i64,
    now2: i64,
    score_bits: u64,
    last_id: i64,
)
    requires
        now1 <= now2,
    ensures
        ({
            let first = cursor_start_spec(None, now1);
            let c = FeedCursor { ranked_at: now1, score_bits, last_id };
            let raw = encode_utf8(encode_spec(c));
            &&& first == Ok::<(i64, Option<FeedCursor>), ApiError>((now1, None))
            &&& now2 - now1 <= 172800 ==> cursor_start_spec(Some(raw), now2) == Ok::<
                (i64, Option<FeedCursor>),
                ApiError,
            >((now1, Some(c)))
            &&& now2 - now1 > 172800 ==> cursor_start_spec(Some(raw), now2) == Err::<
                (i64, Option<FeedCursor>),
                ApiError,
            >(ApiError::Validation("stale_cursor"))
        }),
{
    lemma_cursor_round_trip(FeedCursor { ranked_at: now1, score_bits, last_id });
}

/// A cursor is accepted exactly when it decodes and its ranking time lies
/// at most 60 s ahead of `now` and at most 48 h behind it; an accepted cursor
/// always starts the page at its own ranking time and position, whatever its
/// age within that window. A missing cursor starts page one at `now`.
pub proof fn lemma_cursor_start_uses_cursor_clock(raw: Seq<u8>, now: i64)
    ensures
        cursor_start_spec(None, now) == Ok::<(i64, Option<FeedCursor>), ApiError>((now, None)),
        cursor_start_spec(Some(raw), now) is Ok <==> (decode_spec(raw) matches Some(c) && c.ranked_at
            - now <= 60 && now - c.ranked_at <= 172800),
        cursor_start_spec(Some(raw), now) matches Ok((t, p)) ==> (decode_spec(raw) matches Some(c)
            && t == c.ranked_at && p == Some(c)),
{
}

/// The cursor handed out after a page marks the page's last served item:
/// when more items follow a non-empty page, it decodes to the frozen ranking
/// time and to the score bits and id of the candidate at the page's last
/// index; otherwise there is none.
pub proof fn lemma_next_cursor_marks_last_served(
    ranked_at: i64,
    items: Seq<RankedItem>,
    score_bits: Seq<u64>,
    after: Option<(u64, i64)>,
    limit: usize,
    out: Seq<usize>,
    has_more: bool,
)
    requires
        score_bits.len() == items.len(),
        page_spec(items, after, limit, out, has_more),
    ensures
        !(has_more && out.len() > 0) ==> next_cursor_spec(ranked_at, items, score_bits, out, has_more)
            is None,
        has_more && out.len() > 0 ==> ({
            let i = out[out.len() - 1] as int;
            &&& 0 <= i < items.len()
            &&& next_cursor_spec(ranked_at, items, score_bits, out, has_more) matches Some(t)
                && decode_spec(encode_utf8(t)) == Some(
                FeedCursor { ranked_at, score_bits: score_bits[i], last_id: items[i].id },
            )
        }),
{
    if has_more && out.len() > 0 {
        let i = out[out.len() - 1] as int;
        assert(out[out.len() - 1] < items.len());
        lemma_cursor_round_trip(FeedCursor { ranked_at, score_bits: score_bits[i], last_id: items[i].id });
    }
}

/// Following the handed-out cursor continues the feed with no duplicate and
/// no gap: when each candidate's key is the order key of its score bits and
/// ids are distinct, the page requested from the decoded cursor (position:
/// the order key of its score bits and its id) together with page one is the
/// head of the whole ranking, keeps page one's ranking time, and a short
/// second page means every candidate has been served.
pub proof fn lemma_cursor_pages_chain(
    ranked_at: i64,
    items: Seq<RankedItem>,
    score_bits: Seq<u64>,
    limit1: usize,
    first: Seq<usize>,
    more1: bool,
    c: FeedCursor,
    limit2: usize,
    second: Seq<usize>,
    more2: bool,
)
    requires
        score_bits.len() == items.len(),
        forall|i: int| 0 <= i < items.len() ==> #[trigger] items[i].key == order_key_spec(score_bits[i]),
        forall|a: int, b: int| 0 <= a < b < items.len() ==> items[a].id != items[b].id,
        page_spec(items, None, limit1, first, more1),
        next_cursor_spec(ranked_at, items, score_bits, first, more1) matches Some(t) && decode_spec(
            encode_utf8(t),
        ) == Some(c),
        page_spec(items, Some((order_key_spec(c.score_bits), c.last_id)), limit2, second, more2),
    ensures
        c.ranked_at == ranked_at,
        ranked_prefix(items, None, first + second),
        second.len() < clamp_limit(limit2) ==> forall|j: int|
            0 <= j < items.len() ==> #[trigger] (first + second).contains(j as usize),
{
    lemma_next_cursor_marks_last_served(ranked_at, items, score_bits, None, limit1, first, more1);
    let i = first[first.len() - 1] as int;
    assert(items[i].key == order_key_spec(score_bits[i]));
    lemma_pages_chain(items, limit1, first, limit2, second, more2);
}

} // verus!
