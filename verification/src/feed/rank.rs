//! Ranked-page selection for the personalized feed.
//!
//! Candidates come with an order key (monotone in the cold-start score, so a
//! higher key is a higher score) and their post id. The page is the run of
//! candidates strictly after the cursor position, highest score first, ties
//! broken by the newer (higher) id, limited to the clamped page size.

use vstd::prelude::*;

verus! {

/// Hard cap on feed size per request.
pub const MAX_FEED_LIMIT: usize = 100;

/// One ranking candidate: its order key (monotone in the score) and post id.
#[derive(Debug, Clone, Copy, PartialEq, Eq)]
pub struct RankedItem {
    pub key: u64,
    pub id: i64,
}

/// The selected page: positions into the candidate list, in serving order,
/// and whether further candidates follow.
#[derive(Debug, Clone, PartialEq, Eq)]
pub struct RankedPage {
    pub indices: Vec<usize>,
    pub has_more: bool,
}

/// Candidate `a` is served strictly before candidate `b`: higher key first,
/// then higher id, then (for identical entries) earlier position.
pub open spec fn precedes(items: Seq<RankedItem>, a: int, b: int) -> bool {
    ||| items[a].key > items[b].key
    ||| items[a].key == items[b].key && items[a].id > items[b].id
    ||| items[a].key == items[b].key && items[a].id == items[b].id && a < b
}

/// Whether an item lies strictly after the cursor position `(key, id)`.
pub open spec fn after_cursor(it: RankedItem, after: Option<(u64, i64)>) -> bool {
    match after {
        None => true,
        Some((k, id)) => it.key < k || (it.key == k && it.id < id),
    }
}

/// The page size actually used: `limit` clamped to `1..=MAX_FEED_LIMIT`.
pub open spec fn clamp_limit(limit: usize) -> usize {
    if limit < 1 {
        1
    } else if limit > MAX_FEED_LIMIT {
        MAX_FEED_LIMIT
    } else {
        limit
    }
}

/// `out` lists positions of items after the cursor, in serving order, and
/// every item after the cursor that is not listed is served after all of them.
pub open spec fn ranked_prefix(
    items: Seq<RankedItem>,
    after: Option<(u64, i64)>,
    out: Seq<usize>,
) -> bool {
    &&& forall|p: int| 0 <= p < out.len() ==> #[trigger] out[p] < items.len()
    &&& forall|p: int| 0 <= p < out.len() ==> after_cursor(items[#[trigger] out[p] as int], after)
    &&& forall|p: int, q: int|
        0 <= p < q < out.len() ==> precedes(items, #[trigger] out[p] as int, #[trigger] out[q] as int)
    &&& forall|j: int, p: int|
        #![trigger out[p], items[j]]
        0 <= j < items.len() && after_cursor(items[j], after) && !out.contains(j as usize) && 0 <= p
            < out.len() ==> precedes(items, out[p] as int, j)
}

/// The page for `after` and `limit`: the first `clamp_limit(limit)` items
/// after the cursor in serving order, and whether any further item follows.
pub open spec fn page_spec(
    items: Seq<RankedItem>,
    after: Option<(u64, i64)>,
    limit: usize,
    out: Seq<usize>,
    has_more: bool,
) -> bool {
    &&& ranked_prefix(items, after, out)
    &&& out.len() <= clamp_limit(limit)
    &&& out.len() < clamp_limit(limit) ==> forall|j: int|
        0 <= j < items.len() && after_cursor(items[j], after) ==> out.contains(j as usize)
    &&& has_more <==> exists|j: int|
        0 <= j < items.len() && after_cursor(items[j], after) && !out.contains(j as usize)
}

/// Serving order is a strict total order on positions.
proof fn lemma_precedes_total(items: Seq<RankedItem>, a: int, b: int)
    ensures
        a != b ==> precedes(items, a, b) || precedes(items, b, a),
        !(precedes(items, a, b) && precedes(items, b, a)),
        !precedes(items, a, a),
{
}

proof fn lemma_precedes_trans(items: Seq<RankedItem>, a: int, b: int, c: int)
    requires
        precedes(items, a, b),
        precedes(items, b, c),
    ensures
        precedes(items, a, c),
{
}

fn precedes_exec(items: &Vec<RankedItem>, a: usize, b: usize) -> (r: bool)
    requires
        a < items.len(),
        b < items.len(),
    ensures
        r == precedes(items@, a as int, b as int),
{
    let x = items[a];
    let y = items[b];
    x.key > y.key || (x.key == y.key && x.id > y.id) || (x.key == y.key && x.id == y.id && a < b)
}

fn after_cursor_exec(it: RankedItem, after: Option<(u64, i64)>) -> (r: bool)
    ensures
        r == after_cursor(it, after),
{
    match after {
        None => true,
        Some((k, id)) => it.key < k || (it.key == k && it.id < id),
    }
}

/// The page size actually used: `limit` clamped to `1..=MAX_FEED_LIMIT`.
pub fn page_limit(limit: usize) -> (r: usize)
    ensures
        r == clamp_limit(limit),
{
    if limit < 1 {
        1
    } else if limit > MAX_FEED_LIMIT {
        MAX_FEED_LIMIT
    } else {
        limit
    }
}

/// Select one page of the ranked feed (keyset pagination over the frozen
/// ranking): keep the candidates strictly after `after`, order them highest
/// key first (ties: higher id first), and cut at the clamped `limit`.
pub fn rank_page(items: &Vec<RankedItem>, after: Option<(u64, i64)>, limit: usize) -> (r:
    RankedPage)
    ensures
        page_spec(items@, after, limit, r.indices@, r.has_more),
{
    let n = items.len();
    // Sorted (by `precedes`) positions of the eligible items seen so far.
    let mut sorted: Vec<usize> = Vec::new();
    let mut i: usize = 0;
    while i < n
        invariant
            i <= n,
            n == items.len(),
            forall|p: int| 0 <= p < sorted.len() ==> #[trigger] sorted[p] < i,
            forall|p: int|
                0 <= p < sorted.len() ==> after_cursor(items@[#[trigger] sorted[p] as int], after),
            forall|p: int, q: int|
                0 <= p < q < sorted.len() ==> precedes(
                    items@,
                    #[trigger] sorted[p] as int,
                    #[trigger] sorted[q] as int,
                ),
            forall|j: int|
                0 <= j < i && after_cursor(items@[j], after) ==> sorted@.contains(j as usize),
        decreases n - i,
    {
        if after_cursor_exec(items[i], after) {
            let mut pos: usize = 0;
            while pos < sorted.len() && precedes_exec(items, sorted[pos], i)
                invariant
                    pos <= sorted.len(),
                    i < n,
                    n == items.len(),
                    forall|p: int| 0 <= p < sorted.len() ==> #[trigger] sorted[p] < i,
                    forall|p: int|
                        0 <= p < pos ==> precedes(items@, #[trigger] sorted[p] as int, i as int),
                decreases sorted.len() - pos,
            {
                pos += 1;
            }
            let ghost old_sorted = sorted@;
            proof {
                if pos < sorted.len() {
                    lemma_precedes_total(items@, sorted[pos as int] as int, i as int);
                    assert(precedes(items@, i as int, sorted[pos as int] as int));
                }
            }
            sorted.insert(pos, i);
            proof {
                assert forall|p: int, q: int| 0 <= p < q < sorted.len() implies precedes(
                    items@,
                    #[trigger] sorted[p] as int,
                    #[trigger] sorted[q] as int,
                ) by {
                    if q < pos {
                        assert(sorted[p] == old_sorted[p] && sorted[q] == old_sorted[q]);
                    } else if q == pos {
                        assert(sorted[p] == old_sorted[p]);
                    } else if p == pos {
                        assert(sorted[q] == old_sorted[q - 1]);
                        if q - 1 > pos {
                            lemma_precedes_trans(
                                items@,
                                i as int,
                                old_sorted[pos as int] as int,
                                old_sorted[q - 1] as int,
                            );
                        }
                    } else if p < pos {
                        assert(sorted[p] == old_sorted[p] && sorted[q] == old_sorted[q - 1]);
                        if q - 1 >= pos {
                            lemma_precedes_trans(
                                items@,
                                old_sorted[p] as int,
                                i as int,
                                old_sorted[q - 1] as int,
                            );
                            if q - 1 > pos {
                                lemma_precedes_trans(
                                    items@,
                                    i as int,
                                    old_sorted[pos as int] as int,
                                    old_sorted[q - 1] as int,
                                );
                            }
                        }
                    } else {
                        assert(sorted[p] == old_sorted[p - 1] && sorted[q] == old_sorted[q - 1]);
                    }
                }
                assert forall|j: int|
                    0 <= j < i + 1 && after_cursor(items@[j], after) implies sorted@.contains(
                    j as usize,
                ) by {
                    if j == i {
                        assert(sorted@[pos as int] == i);
                    } else {
                        let k = choose|k: int| 0 <= k < old_sorted.len() && old_sorted[k] == j as usize;
                        if k < pos {
                            assert(sorted@[k] == j as usize);
                        } else {
                            assert(sorted@[k + 1] == j as usize);
                        }
                    }
                }
                assert forall|p: int| 0 <= p < sorted.len() implies #[trigger] sorted[p] < i + 1 by {
                    if p < pos {
                        assert(sorted[p] == old_sorted[p]);
                    } else if p > pos {
                        assert(sorted[p] == old_sorted[p - 1]);
                    }
                }
                assert forall|p: int| 0 <= p < sorted.len() implies after_cursor(
                    items@[#[trigger] sorted[p] as int],
                    after,
                ) by {
                    if p < pos {
                        assert(sorted[p] == old_sorted[p]);
                    } else if p > pos {
                        assert(sorted[p] == old_sorted[p - 1]);
                    }
                }
            }
        }
        i += 1;
    }
    let cap = page_limit(limit);
    let has_more = sorted.len() > cap;
    let ghost full = sorted@;
    sorted.truncate(cap);
    proof {
        assert forall|j: int, p: int|
            0 <= j < items.len() && after_cursor(items@[j], after) && !sorted@.contains(j as usize)
                && 0 <= p < sorted.len() implies #[trigger] precedes(
            items@,
            sorted@[p] as int,
            j,
        ) by {
            let k = choose|k: int| 0 <= k < full.len() && full[k] == j as usize;
            if k < sorted.len() {
                assert(sorted@[k] == j as usize);
            } else {
                assert(sorted@[p] == full[p]);
            }
        }
        if has_more {
            assert(!sorted@.contains(full[cap as int])) by {
                if sorted@.contains(full[cap as int]) {
                    let k = choose|k: int| 0 <= k < sorted.len() && sorted@[k] == full[cap as int];
                    assert(full[k] == full[cap as int]);
                    assert(precedes(items@, full[k] as int, full[cap as int] as int));
                }
            }
            assert(after_cursor(items@[full[cap as int] as int], after));
        } else {
            assert(sorted@ =~= full);
        }
    }
    RankedPage { indices: sorted, has_more }
}

/// Pagination chains without duplicates and without gaps: when the first
/// page is full and more items follow, the page requested after its last item
/// continues it exactly. Together the two pages are again the head of the
/// whole ranking (no item is served twice, none is skipped). The candidates
/// are posts, each once under its primary-key id; two candidates with the
/// same key and id could not be told apart by a cursor, so the law is stated
/// for distinct ids.
pub proof fn lemma_pages_chain(
    items: Seq<RankedItem>,
    limit1: usize,
    first: Seq<usize>,
    limit2: usize,
    second: Seq<usize>,
    more2: bool,
)
    requires
        forall|a: int, b: int| 0 <= a < b < items.len() ==> items[a].id != items[b].id,
        page_spec(items, None, limit1, first, true),
        first.len() > 0 ==> page_spec(
            items,
            Some((items[first.last() as int].key, items[first.last() as int].id)),
            limit2,
            second,
            more2,
        ),
    ensures
        first.len() == clamp_limit(limit1),
        ranked_prefix(items, None, first + second),
        second.len() < clamp_limit(limit2) ==> forall|j: int|
            0 <= j < items.len() ==> #[trigger] (first + second).contains(j as usize),
{
    let j0 = choose|j: int| 0 <= j < items.len() && after_cursor(items[j], None) && !first.contains(j as usize);
    assert(first.len() == clamp_limit(limit1));
    let l = first.last() as int;
    let c = Some((items[l].key, items[l].id));
    let both = first + second;
    // After the cursor means: served after the last item of the first page.
    assert forall|j: int| 0 <= j < items.len() implies (after_cursor(items[j], c) <==> precedes(items, l, j)) by {
        if j != l && items[j].key == items[l].key && items[j].id == items[l].id {
            if j < l {
                assert(items[j].id != items[l].id);
            } else {
                assert(items[l].id != items[j].id);
            }
        }
    }
    // Every item of the first page is the last one or served before it.
    assert forall|p: int| 0 <= p < first.len() implies first[p] as int == l || precedes(items, #[trigger] first[p] as int, l) by {
        if p < first.len() - 1 {
            assert(precedes(items, first[p] as int, first[first.len() - 1] as int));
        }
    }
    // No item is on both pages.
    assert forall|p: int, q: int| 0 <= p < first.len() && 0 <= q < second.len() implies precedes(items, #[trigger] first[p] as int, #[trigger] second[q] as int) by {
        assert(after_cursor(items[second[q] as int], c));
        if first[p] as int != l {
            lemma_precedes_trans(items, first[p] as int, l, second[q] as int);
        }
    }
    assert forall|p: int, q: int| 0 <= p < q < both.len() implies precedes(items, #[trigger] both[p] as int, #[trigger] both[q] as int) by {
        if q < first.len() {
            assert(both[p] == first[p] && both[q] == first[q]);
        } else if p >= first.len() {
            assert(both[p] == second[p - first.len()] && both[q] == second[q - first.len()]);
        } else {
            assert(both[p] == first[p] && both[q] == second[q - first.len()]);
        }
    }
    assert forall|p: int| 0 <= p < both.len() implies #[trigger] both[p] < items.len() && after_cursor(items[both[p] as int], None) by {
        if p >= first.len() {
            assert(both[p] == second[p - first.len()]);
        }
    }
    assert forall|j: int, p: int|
        #![trigger both[p], items[j]]
        0 <= j < items.len() && after_cursor(items[j], None) && !both.contains(j as usize) && 0 <= p < both.len()
        implies precedes(items, both[p] as int, j) by {
        assert forall|k: int| 0 <= k < first.len() implies first[k] != j as usize by {
            assert(both[k] == first[k]);
        }
        assert(!first.contains(j as usize));
        assert(precedes(items, first[first.len() - 1] as int, j));
        assert(after_cursor(items[j], c));
        assert forall|k: int| 0 <= k < second.len() implies second[k] != j as usize by {
            assert(both[first.len() + k] == second[k]);
        }
        assert(!second.contains(j as usize));
        if p < first.len() {
            assert(both[p] == first[p]);
        } else {
            assert(both[p] == second[p - first.len()]);
        }
    }
    if second.len() < clamp_limit(limit2) {
        assert forall|j: int| 0 <= j < items.len() implies #[trigger] both.contains(j as usize) by {
            if !first.contains(j as usize) {
                assert(precedes(items, first[first.len() - 1] as int, j));
                assert(after_cursor(items[j], c));
                let k = choose|k: int| 0 <= k < second.len() && second[k] == j as usize;
                assert(both[first.len() + k] == j as usize);
            } else {
                let k = choose|k: int| 0 <= k < first.len() && first[k] == j as usize;
                assert(both[k] == j as usize);
            }
        }
    }
}


/// The order key of a score given by its IEEE-754 bits: the sign bit set for
/// a non-negative score, every bit flipped for a negative one.
pub open spec fn order_key_spec(bits: u64) -> u64 {
    if bits >> 63u64 == 0 {
        bits | 0x8000_0000_0000_0000u64
    } else {
        !bits
    }
}

/// Score `a` lies below score `b` in sign-magnitude order (their IEEE-754
/// bits; a negative zero counts below a positive one).
pub open spec fn score_bits_below(a: u64, b: u64) -> bool {
    let a_neg = a >> 63u64 == 1;
    let b_neg = b >> 63u64 == 1;
    let ma = a & 0x7fff_ffff_ffff_ffffu64;
    let mb = b & 0x7fff_ffff_ffff_ffffu64;
    if a_neg && !b_neg {
        true
    } else if !a_neg && b_neg {
        false
    } else if !a_neg {
        ma < mb
    } else {
        mb < ma
    }
}

/// The order key of a score, from its IEEE-754 bits.
pub fn score_order_key(bits: u64) -> (r: u64)
    ensures
        r == order_key_spec(bits),
{
    if bits >> 63u64 == 0 {
        bits | 0x8000_0000_0000_0000u64
    } else {
        !bits
    }
}

/// Order keys order scores exactly: a score lies below another (in
/// sign-magnitude order of their bits) iff its key is smaller, so ranking by
/// key is ranking by score.
pub proof fn lemma_order_key_monotone(a: u64, b: u64)
    ensures
        score_bits_below(a, b) <==> order_key_spec(a) < order_key_spec(b),
        order_key_spec(a) == order_key_spec(b) <==> a == b,
{
    assert((score_bits_below(a, b) <==> order_key_spec(a) < order_key_spec(b))
        && (order_key_spec(a) == order_key_spec(b) <==> a == b)) by (bit_vector);
}

} // verus!
