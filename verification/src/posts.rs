//! Posts: normalising a new post, paging and moderation limits, report
//! reasons, and the ingestion backfill and status summaries.

use std::collections::BTreeMap;
use vstd::prelude::*;
use vstd::string::*;
use crate::error::{fk_mapped, ApiError, DbFailure};
use crate::text::{
    append_str, bounded_text_spec, string_order_lawful, bounded_trimmed, lowercase, str_eq, to_lowercase, trim,
    trim_spec,
};

verus! {

/// Hard cap on how many posts one list request can return.
pub const MAX_LIST_LIMIT: i64 = 200;
/// Hard cap on a report reason's length, in bytes.
pub const MAX_REASON_LEN: usize = 500;
/// Hard cap on how many posts one backfill page enqueues.
pub const MAX_BACKFILL_LIMIT: i64 = 1000;

/// A request to create a post. `author_id` is set from the session.
#[derive(Debug, Clone)]
pub struct NewPost {
    pub author_id: i64,
    pub category: Option<String>,
    pub body: String,
    pub media_id: Option<i64>,
    pub area: String,
}

/// A user's report of a post (the reporter is the session user).
#[derive(Debug, Clone)]
pub struct ReportRequest {
    pub reason: String,
}

/// Operator moderation row: a reported post with how many reports it has, and
/// whether it is hidden or private.
#[derive(Debug, Clone)]
pub struct ReportedPost {
    pub post_id: i64,
    pub report_count: i64,
    pub hidden: bool,
    pub area: String,
}

/// The area of a post when the request names none.
pub fn default_area() -> (r: String)
    ensures
        r@ == "public"@,
{
    let mut s = String::new();
    append_str(&mut s, "public");
    s
}

/// The page size of a post list when the request names none.
pub fn default_limit() -> (r: i64)
    ensures
        r == 50,
{
    50
}

/// The page size of a backfill when the request names none.
pub fn default_backfill_limit() -> (r: i64)
    ensures
        r == 500,
{
    500
}

/// The normal form of a category: trimmed, lower-cased, and absent when
/// blank.
pub open spec fn category_spec(c: Option<Seq<char>>) -> Option<Seq<char>> {
    match c {
        None => None,
        Some(s) => if lowercase(trim_spec(s)).len() == 0 {
            None
        } else {
            Some(lowercase(trim_spec(s)))
        },
    }
}

/// A view of an optional string.
pub open spec fn opt_view(o: Option<String>) -> Option<Seq<char>> {
    match o {
        Some(s) => Some(s@),
        None => None,
    }
}

/// Whether `area` is one of the two areas a post can be in.
pub open spec fn valid_area(area: Seq<char>) -> bool {
    area == "public"@ || area == "private"@
}

/// The verdict on a new post: a body that is not blank once trimmed, and an
/// area of `public` or `private`.
pub open spec fn new_post_error(body: Seq<char>, area: Seq<char>) -> Option<ApiError> {
    if trim_spec(body).len() == 0 {
        Some(ApiError::Validation("empty_body"))
    } else if !valid_area(area) {
        Some(ApiError::Validation("invalid_area"))
    } else {
        None
    }
}

/// A text, or nothing when it is empty.
pub fn nonblank(s: String) -> (r: Option<String>)
    ensures
        s@.len() == 0 ==> r is None,
        s@.len() != 0 ==> r == Some(s),
{
    if s.as_str().is_empty() {
        None
    } else {
        Some(s)
    }
}

/// Normalise a new post: trim the body (a blank one is refused), normalise
/// the category like users' declared categories, and whitelist the area.
pub fn normalize_new_post(new: NewPost) -> (r: Result<NewPost, ApiError>)
    ensures
        match new_post_error(new.body@, new.area@) {
            Some(e) => r matches Err(x) && x == e,
            None => r matches Ok(p) && p.author_id == new.author_id && p.body@ == trim_spec(
                new.body@,
            ) && opt_view(p.category) == category_spec(opt_view(new.category)) && p.media_id
                == new.media_id && p.area == new.area,
        },
{
    let t = trim(new.body.as_str());
    if t.is_empty() {
        return Err(ApiError::Validation("empty_body"));
    }
    if !(str_eq(new.area.as_str(), "public") || str_eq(new.area.as_str(), "private")) {
        return Err(ApiError::Validation("invalid_area"));
    }
    let mut body = String::new();
    append_str(&mut body, t);
    let category = match &new.category {
        None => None,
        Some(c) => nonblank(to_lowercase(trim(c.as_str()))),
    };
    Ok(NewPost { author_id: new.author_id, category, body, media_id: new.media_id, area: new.area })
}

/// Only public posts are offered to the ingestion pipeline: private posts
/// are never analysed.
pub fn enqueues_ingestion(area: &str) -> (r: bool)
    ensures
        r == (area@ == "public"@),
{
    str_eq(area, "public")
}

/// `v` clamped into `[lo, hi]`.
pub open spec fn clamp_spec(v: i64, lo: i64, hi: i64) -> i64 {
    if v < lo {
        lo
    } else if v > hi {
        hi
    } else {
        v
    }
}

/// `v` clamped into `[lo, hi]`.
pub fn clamp_i64(v: i64, lo: i64, hi: i64) -> (r: i64)
    requires
        lo <= hi,
    ensures
        r == clamp_spec(v, lo, hi),
{
    if v < lo {
        lo
    } else if v > hi {
        hi
    } else {
        v
    }
}

/// The page of a post list: the limit clamped to `[1, 200]`, the offset to
/// at least 0.
pub fn list_window(limit: i64, offset: i64) -> (r: (i64, i64))
    ensures
        r.0 == clamp_spec(limit, 1, MAX_LIST_LIMIT),
        r.1 == if offset < 0 { 0 } else { offset },
{
    (clamp_i64(limit, 1, MAX_LIST_LIMIT), if offset < 0 { 0 } else { offset })
}

/// The size of the operator moderation queue: clamped to `[1, 200]`.
pub fn reported_limit(limit: i64) -> (r: i64)
    ensures
        r == clamp_spec(limit, 1, MAX_LIST_LIMIT),
{
    clamp_i64(limit, 1, MAX_LIST_LIMIT)
}

/// A report reason, trimmed: neither blank nor longer than 500 bytes.
pub fn check_report_reason(reason: &str) -> (r: Result<&str, ApiError>)
    ensures
        match bounded_text_spec(reason@, MAX_REASON_LEN, "empty_reason", "reason_too_long") {
            Ok(t) => r matches Ok(x) && x@ == t,
            Err(e) => r matches Err(x) && x == e,
        },
{
    bounded_trimmed(reason, MAX_REASON_LEN, "empty_reason", "reason_too_long")
}

/// A report of a non-existent post hits the foreign key: 404.
pub fn map_report_error(err: DbFailure) -> (r: ApiError)
    ensures
        r == fk_mapped(err, ApiError::NotFound),
{
    ApiError::on_fk_violation(err, ApiError::NotFound)
}

/// With media checked first, the only foreign key a post insert can trip is
/// the author's: a client error.
pub fn map_create_error(err: DbFailure) -> (r: ApiError)
    ensures
        r == fk_mapped(err, ApiError::Validation("unknown_author")),
{
    ApiError::on_fk_violation(err, ApiError::Validation("unknown_author"))
}

/// An attached media asset must exist and belong to the author.
pub fn check_media_owned(owned: bool) -> (r: Result<(), ApiError>)
    ensures
        owned ==> r is Ok,
        !owned ==> r == Err::<(), ApiError>(ApiError::Validation("unknown_media")),
{
    if !owned {
        return Err(ApiError::Validation("unknown_media"));
    }
    Ok(())
}

/// Result of one backfill page: how many ids were enqueued, and where to
/// resume (`enqueued == 0` means the sweep is drained).
#[derive(Debug, Clone, Copy, PartialEq, Eq)]
pub struct BackfillResult {
    pub enqueued: i64,
    pub last_id: i64,
}

/// The size of a backfill page: clamped to `[1, 1000]`.
pub fn backfill_limit(limit: i64) -> (r: i64)
    ensures
        r == clamp_spec(limit, 1, MAX_BACKFILL_LIMIT),
{
    clamp_i64(limit, 1, MAX_BACKFILL_LIMIT)
}

/// The result of a backfill page once every id of it was enqueued: the
/// count, and the last id (or the resume point itself when there were none).
pub fn backfill_result(after_id: i64, ids: &Vec<i64>) -> (r: BackfillResult)
    requires
        ids@.len() <= i64::MAX,
    ensures
        r.enqueued == ids@.len(),
        r.last_id == if ids@.len() == 0 { after_id } else { ids@.last() },
{
    let mut enqueued: i64 = 0;
    let mut last_id = after_id;
    let mut i: usize = 0;
    while i < ids.len()
        invariant
            i <= ids.len(),
            ids@.len() <= i64::MAX,
            enqueued == i,
            last_id == if i == 0 { after_id } else { ids@[i - 1] },
        decreases ids.len() - i,
    {
        enqueued += 1;
        last_id = ids[i];
        i += 1;
    }
    BackfillResult { enqueued, last_id }
}

/// How far ingestion analysis has progressed over the corpus.
#[derive(Debug, Clone)]
pub struct IngestionStatus {
    pub analyzed: i64,
    pub unanalyzed: i64,
    pub by_model_version: BTreeMap<String, i64>,
}

/// The sum of the counts of `rows`.
pub open spec fn counts_total(rows: Seq<(String, i64)>) -> int
    decreases rows.len(),
{
    if rows.len() == 0 {
        0
    } else {
        counts_total(rows.drop_last()) + rows.last().1
    }
}

/// The map that `rows` collect into: a later row wins on a repeated key.
pub open spec fn rows_map(rows: Seq<(String, i64)>) -> Map<String, i64>
    decreases rows.len(),
{
    if rows.len() == 0 {
        Map::empty()
    } else {
        rows_map(rows.drop_last()).insert(rows.last().0, rows.last().1)
    }
}

/// Whether every running total of the counts of `rows` fits in `i64` (the
/// condition `ingestion_status` needs), decided exactly.
pub fn counts_summable(rows: &Vec<(String, i64)>) -> (r: bool)
    ensures
        r == forall|k: int| 0 <= k <= rows@.len() ==> i64::MIN <= #[trigger] counts_total(rows@.take(k)) <= i64::MAX,
{
    let mut total: i128 = 0;
    let mut i: usize = 0;
    assert(rows@.take(0) =~= Seq::<(String, i64)>::empty());
    while i < rows.len()
        invariant
            i <= rows.len(),
            total == counts_total(rows@.take(i as int)),
            forall|k: int| 0 <= k <= i ==> i64::MIN <= #[trigger] counts_total(rows@.take(k)) <= i64::MAX,
        decreases rows.len() - i,
    {
        proof {
            assert(rows@.take(i + 1).drop_last() =~= rows@.take(i as int));
        }
        total = total + rows[i].1 as i128;
        if total < i64::MIN as i128 || total > i64::MAX as i128 {
            assert(total == counts_total(rows@.take(i + 1)));
            assert(!(i64::MIN <= counts_total(rows@.take(i + 1)) <= i64::MAX));
            return false;
        }
        i += 1;
        assert forall|k: int| 0 <= k <= i implies i64::MIN <= #[trigger] counts_total(rows@.take(k)) <= i64::MAX by {
            if k == i {
                assert(total == counts_total(rows@.take(k)));
            }
        }
    }
    assert(rows@.take(rows.len() as int) =~= rows@);
    true
}

/// Summarise ingestion progress from the unanalysed count and the analysed
/// counts per model version.
pub fn ingestion_status(unanalyzed: i64, rows: Vec<(String, i64)>) -> (r: IngestionStatus)
    requires
        forall|k: int| 0 <= k <= rows@.len() ==> i64::MIN <= #[trigger] counts_total(rows@.take(k)) <= i64::MAX,
    ensures
        r.analyzed == counts_total(rows@),
        r.unanalyzed == unanalyzed,
        string_order_lawful() ==> r.by_model_version@ == rows_map(rows@),
{
    let ghost all = rows@;
    let mut analyzed: i64 = 0;
    let mut by_model_version: BTreeMap<String, i64> = BTreeMap::new();
    let mut i: usize = 0;
    assert(all.take(0) =~= Seq::<(String, i64)>::empty());
    while i < rows.len()
        invariant
            i <= rows.len(),
            all == rows@,
            forall|k: int| 0 <= k <= all.len() ==> i64::MIN <= #[trigger] counts_total(all.take(k)) <= i64::MAX,
            analyzed == counts_total(all.take(i as int)),
            string_order_lawful() ==> by_model_version@ == rows_map(all.take(i as int)),
        decreases rows.len() - i,
    {
        let key = rows[i].0.clone();
        let count = rows[i].1;
        proof {
            assert(all.take(i + 1).drop_last() =~= all.take(i as int));
            assert(all.take(i + 1).last() == all[i as int]);
            assert(i64::MIN <= counts_total(all.take(i + 1)) <= i64::MAX);
        }
        analyzed = analyzed + count;
        by_model_version.insert(key, count);
        i += 1;
    }
    assert(all.take(i as int) =~= all);
    IngestionStatus { analyzed, unanalyzed, by_model_version }
}

} // verus!
