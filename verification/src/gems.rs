//! Epoch settlement decisions: who takes part in an epoch's graph, what is
//! minted, when an epoch is already done, and which epochs are closed.

use vstd::prelude::*;
use crate::error::ApiError;
use crate::text::append_str;

verus! {

/// Outcome of settling (or attempting to settle) one epoch.
#[derive(Debug, Clone, Copy, PartialEq, Eq)]
pub struct SettlementSummary {
    pub epoch_k: i64,
    /// Base units minted this epoch (0 without eligible participants).
    pub emission: i64,
    /// Number of users in the epoch's interaction graph.
    pub user_count: i32,
    /// True if the epoch had already been settled and this call changed nothing.
    pub already_settled: bool,
}

/// A user's current off-chain gem balance.
#[derive(Debug, Clone, Copy, PartialEq, Eq)]
pub struct GemBalance {
    pub user_id: i64,
    pub balance: i64,
}

/// The recorded outcome of an already-settled epoch.
#[derive(Debug, Clone, Copy, PartialEq, Eq)]
pub struct SettledMarker {
    pub emission: i64,
    pub user_count: i32,
}

/// Whether `s` is strictly increasing (so sorted, without repeats).
pub open spec fn strictly_increasing(s: Seq<i64>) -> bool {
    forall|i: int, j: int| 0 <= i < j < s.len() ==> s[i] < s[j]
}

/// Every user id that appears in an edge, as actor or as target.
pub open spec fn edge_users(edges: Seq<(i64, i64)>) -> Set<i64> {
    Set::new(|u: i64| exists|k: int| 0 <= k < edges.len() && (edges[k].0 == u || edges[k].1 == u))
}

fn insert_sorted(ids: &mut Vec<i64>, x: i64)
    requires
        strictly_increasing(old(ids)@),
    ensures
        strictly_increasing(final(ids)@),
        final(ids)@.to_set() == old(ids)@.to_set().insert(x),
{
    let mut i: usize = 0;
    while i < ids.len() && ids[i] < x
        invariant
            i <= ids.len(),
            forall|j: int| 0 <= j < i ==> ids@[j] < x,
        decreases ids.len() - i,
    {
        i += 1;
    }
    let ghost before = ids@;
    if i < ids.len() && ids[i] == x {
        return;
    }
    ids.insert(i, x);
    proof {
        assert(ids@ =~= before.take(i as int).push(x) + before.skip(i as int));
        assert forall|a: int, b: int| 0 <= a < b < ids@.len() implies ids@[a] < ids@[b] by {
            if b < i {
            } else if a < i && b == i {
            } else if a < i {
                assert(ids@[b] == before[b - 1]);
            } else if a == i {
                assert(ids@[b] == before[b - 1]);
                assert(before[i as int] > x);
            } else {
                assert(ids@[a] == before[a - 1]);
                assert(ids@[b] == before[b - 1]);
            }
        }
        assert forall|y: i64| ids@.to_set().contains(y) <==> before.to_set().insert(x).contains(y) by {
            if ids@.contains(y) {
                let k = choose|k: int| 0 <= k < ids@.len() && ids@[k] == y;
                if k < i {
                    assert(before[k] == y);
                } else if k > i {
                    assert(before[k - 1] == y);
                }
            }
            if before.contains(y) {
                let k = choose|k: int| 0 <= k < before.len() && before[k] == y;
                if k < i {
                    assert(ids@[k] == y);
                } else {
                    assert(ids@[k + 1] == y);
                }
            }
            if y == x {
                assert(ids@[i as int] == x);
            }
        }
        assert(ids@.to_set() =~= before.to_set().insert(x));
    }
}

/// The users of an epoch's edges, each once, in ascending order.
pub fn participant_ids(edges: &Vec<(i64, i64)>) -> (r: Vec<i64>)
    ensures
        strictly_increasing(r@),
        r@.to_set() == edge_users(edges@),
{
    let mut ids: Vec<i64> = Vec::new();
    let mut k: usize = 0;
    while k < edges.len()
        invariant
            k <= edges.len(),
            strictly_increasing(ids@),
            ids@.to_set() == edge_users(edges@.take(k as int)),
        decreases edges.len() - k,
    {
        let (a, b) = edges[k];
        insert_sorted(&mut ids, a);
        insert_sorted(&mut ids, b);
        proof {
            let before = edges@.take(k as int);
            let after = edges@.take(k + 1);
            assert(after[k as int] == (a, b));
            assert forall|u: i64| edge_users(after).contains(u) <==> edge_users(before).insert(a).insert(b).contains(u) by {
                if edge_users(after).contains(u) {
                    let j = choose|j: int| 0 <= j < after.len() && (after[j].0 == u || after[j].1 == u);
                    if j < k {
                        assert(before[j] == after[j]);
                    }
                }
                if edge_users(before).contains(u) {
                    let j = choose|j: int| 0 <= j < before.len() && (before[j].0 == u || before[j].1 == u);
                    assert(after[j] == before[j]);
                }
            }
            assert(edge_users(after) =~= edge_users(before).insert(a).insert(b));
        }
        k += 1;
    }
    assert(edges@.take(edges.len() as int) =~= edges@);
    ids
}

/// The emission recorded for an epoch: the scheduled amount when some
/// participant is verified, else nothing; an amount that does not fit the
/// marker's `i64` is an internal error, never a wrapped value.
pub fn checked_emission(has_participants: bool, scheduled: u128) -> (r: Result<i64, ApiError>)
    ensures
        !has_participants ==> r == Ok::<i64, ApiError>(0),
        has_participants && scheduled <= i64::MAX ==> r == Ok::<i64, ApiError>(scheduled as i64),
        has_participants && scheduled > i64::MAX ==> (r matches Err(ApiError::Internal(m)) && m@
            == "emission exceeds i64"@),
{
    if !has_participants {
        return Ok(0);
    }
    if scheduled > 0x7fff_ffff_ffff_ffffu128 {
        let mut m = String::new();
        append_str(&mut m, "emission exceeds i64");
        return Err(ApiError::Internal(m));
    }
    Ok(scheduled as i64)
}

/// What settlement does after learning whether the epoch is already marked.
#[derive(Debug, Clone, Copy, PartialEq, Eq)]
pub enum SettleAction {
    /// Already settled: report it and change nothing.
    Done(SettlementSummary),
    /// Mint by weight first, then record the marker (a crash in between
    /// leaves no marker, so a retry re-mints idempotently).
    MintThenMark,
    /// Nothing to mint: only record the marker.
    MarkOnly,
}

/// The summary of an epoch answered from its recorded marker.
pub open spec fn recorded_summary(epoch_k: i64, marker: SettledMarker) -> SettlementSummary {
    SettlementSummary {
        epoch_k,
        emission: marker.emission,
        user_count: marker.user_count,
        already_settled: true,
    }
}

/// The next settlement step, given the epoch's marker if one is recorded.
pub open spec fn settle_action_spec(
    epoch_k: i64,
    has_participants: bool,
    marker: Option<SettledMarker>,
) -> SettleAction {
    match marker {
        Some(m) => SettleAction::Done(recorded_summary(epoch_k, m)),
        None => if has_participants {
            SettleAction::MintThenMark
        } else {
            SettleAction::MarkOnly
        },
    }
}

/// Decide the next settlement step. An epoch already marked is answered
/// from its marker (what was minted then, and for how many users), whatever
/// the epoch's events recompute to now; otherwise mint (when someone takes
/// part) and mark.
pub fn settle_action(
    epoch_k: i64,
    has_participants: bool,
    marker: Option<SettledMarker>,
) -> (r: SettleAction)
    ensures
        r == settle_action_spec(epoch_k, has_participants, marker),
{
    match marker {
        Some(m) => SettleAction::Done(marker_summary(epoch_k, m)),
        None => if has_participants {
            SettleAction::MintThenMark
        } else {
            SettleAction::MarkOnly
        },
    }
}

/// The summary once the marker `(emission, user_count)` was written (or
/// found written by a concurrent settler: `first_time` false).
pub open spec fn marked_summary_spec(epoch_k: i64, emission: i64, user_count: i32, first_time: bool) -> SettlementSummary {
    SettlementSummary { epoch_k, emission, user_count, already_settled: !first_time }
}

/// The summary once the marker was written (or found written by a
/// concurrent settler: `first_time` false).
pub fn marked_summary(epoch_k: i64, emission: i64, user_count: i32, first_time: bool) -> (r:
    SettlementSummary)
    ensures
        r == marked_summary_spec(epoch_k, emission, user_count, first_time),
{
    SettlementSummary { epoch_k, emission, user_count, already_settled: !first_time }
}

/// The summary of an epoch answered from its marker.
pub fn marker_summary(epoch_k: i64, marker: SettledMarker) -> (r: SettlementSummary)
    ensures
        r == recorded_summary(epoch_k, marker),
{
    SettlementSummary {
        epoch_k,
        emission: marker.emission,
        user_count: marker.user_count,
        already_settled: true,
    }
}

/// Settling an epoch again is a no-op that reports the recorded marker: after
/// a first settlement marked the epoch with `(emission, user_count)` and
/// reported them as newly settled, any later attempt, whatever the epoch's
/// events now recompute to, is answered without minting or marking, with the
/// same emission and user count, flagged as already settled.
pub proof fn lemma_repeat_settle_reports_marker(
    epoch_k: i64,
    emission: i64,
    user_count: i32,
    has_participants_now: bool,
)
    ensures
        ({
            let first = marked_summary_spec(epoch_k, emission, user_count, true);
            let marker = SettledMarker { emission, user_count };
            &&& !first.already_settled
            &&& settle_action_spec(epoch_k, has_participants_now, Some(marker)) == SettleAction::Done(
                SettlementSummary {
                    epoch_k,
                    emission: first.emission,
                    user_count: first.user_count,
                    already_settled: true,
                },
            )
        }),
{
}

/// The closed epochs to settle at `current_epoch`: the last `lookback` (at
/// least 1) before it, never below epoch 0; as a half-open range.
pub open spec fn closed_window_spec(current_epoch: i64, lookback: i64) -> (int, int) {
    let l = if lookback < 1 { 1 } else { lookback as int };
    let start = if current_epoch - l < 0 { 0 } else { current_epoch - l };
    (start, current_epoch as int)
}

/// The half-open range of closed epochs to settle, oldest first.
pub fn closed_epoch_window(current_epoch: i64, lookback: i64) -> (r: (i64, i64))
    requires
        current_epoch - (if lookback < 1 { 1 } else { lookback as int }) >= i64::MIN,
    ensures
        r.0 == closed_window_spec(current_epoch, lookback).0,
        r.1 == closed_window_spec(current_epoch, lookback).1,
{
    let l = if lookback < 1 { 1 } else { lookback };
    let start = current_epoch - l;
    (if start < 0 { 0 } else { start }, current_epoch)
}

/// The window holds only closed epochs: none below 0, the open current epoch
/// excluded, and at most `lookback` (at least one) of them.
pub proof fn lemma_closed_window(current_epoch: i64, lookback: i64)
    ensures
        ({
            let (s, e) = closed_window_spec(current_epoch, lookback);
            &&& s >= 0
            &&& e == current_epoch
            &&& e - s <= (if lookback < 1 { 1 } else { lookback as int })
        }),
{
}

} // verus!
