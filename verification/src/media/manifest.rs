//! HLS manifest rewriting. Each segment line of a stored playlist becomes a
//! short-lived presigned URL, so segment bytes still come straight from the
//! object store; comments and blank lines pass through unchanged.

use vstd::prelude::*;
use vstd::string::*;
use vstd::utf8::*;
use crate::text::{append_str, chars_of, push_char, string_of};

verus! {

/// The text of `bytes` with every invalid UTF-8 sequence replaced by
/// U+FFFD, as `String::from_utf8_lossy` computes it.
pub uninterp spec fn lossy_text(bytes: Seq<u8>) -> Seq<char>;

/// Trusted: `String::from_utf8_lossy`. Claims that the result is named by
/// `lossy_text` of the bytes, and that valid UTF-8 is decoded unchanged, as
/// the std documentation says; the replacement rule itself is not restated.
#[verifier::external_body]
fn utf8_lossy(bytes: &[u8]) -> (r: String)
    ensures
        r@ == lossy_text(bytes@),
        valid_utf8(bytes@) ==> r@ == decode_utf8(bytes@),
{
    String::from_utf8_lossy(bytes).into_owned()
}

/// Index of the first `c` in `s`, or `s.len()` when there is none.
pub open spec fn char_index(s: Seq<char>, c: char) -> nat
    decreases s.len(),
{
    if s.len() == 0 {
        0
    } else if s[0] == c {
        0
    } else {
        1 + char_index(s.drop_first(), c)
    }
}

/// A line without its trailing carriage return, if it has one.
pub open spec fn strip_cr(l: Seq<char>) -> Seq<char> {
    if l.len() > 0 && l.last() == '\r' {
        l.drop_last()
    } else {
        l
    }
}

/// The lines of `s` as `str::lines` yields them: split at `\n` or `\r\n`;
/// the last line needs no terminator, and a final terminator adds no empty
/// line.
pub open spec fn lines_spec(s: Seq<char>) -> Seq<Seq<char>>
    decreases s.len(),
{
    let i = char_index(s, '\n');
    if s.len() == 0 {
        Seq::empty()
    } else if i >= s.len() {
        seq![s]
    } else {
        seq![strip_cr(s.take(i as int))] + lines_spec(s.skip(i + 1 as int))
    }
}

/// One line of a rewritten manifest: kept as it is, or a segment to presign
/// (holding the segment's object key).
#[derive(Debug, Clone, PartialEq, Eq)]
pub enum ManifestLine {
    Literal(String),
    Segment(String),
}

/// A line as (is it a segment?, its text or object key).
pub open spec fn line_view(l: ManifestLine) -> (bool, Seq<char>) {
    match l {
        ManifestLine::Literal(t) => (false, t@),
        ManifestLine::Segment(k) => (true, k@),
    }
}

/// What a manifest line becomes: empty lines and `#` lines are kept, any
/// other line names a segment stored under `prefix`.
pub open spec fn planned_line(line: Seq<char>, prefix: Seq<char>) -> (bool, Seq<char>) {
    if line.len() == 0 || line[0] == '#' {
        (false, line)
    } else {
        (true, prefix + seq!['/'] + line)
    }
}

/// The object-key prefix under which an asset's HLS files are stored.
pub open spec fn hls_prefix_spec(object_key: Seq<char>) -> Seq<char> {
    object_key + "/hls"@
}

/// `<object_key>/hls`.
pub fn hls_prefix(object_key: &str) -> (r: String)
    ensures
        r@ == hls_prefix_spec(object_key@),
{
    let mut s = String::new();
    append_str(&mut s, object_key);
    append_str(&mut s, "/hls");
    s
}

/// `<prefix>/<name>`: the object key of a file under a prefix.
pub fn child_key(prefix: &str, name: &str) -> (r: String)
    ensures
        r@ == prefix@ + seq!['/'] + name@,
{
    let mut s = String::new();
    append_str(&mut s, prefix);
    push_char(&mut s, '/');
    append_str(&mut s, name);
    s
}

fn plan_line(line: &[char], prefix: &str) -> (r: ManifestLine)
    ensures
        line_view(r) == planned_line(line@, prefix@),
{
    let text = string_of(line);
    if line.len() == 0 || line[0] == '#' {
        ManifestLine::Literal(text)
    } else {
        ManifestLine::Segment(child_key(prefix, text.as_str()))
    }
}

fn index_from(cs: &Vec<char>, start: usize, c: char) -> (r: usize)
    requires
        start <= cs.len(),
    ensures
        r == start + char_index(cs@.skip(start as int), c),
        r <= cs.len(),
{
    let mut i = start;
    while i < cs.len() && cs[i] != c
        invariant
            start <= i <= cs.len(),
            forall|j: int| start <= j < i ==> cs@[j] != c,
        decreases cs.len() - i,
    {
        i += 1;
    }
    proof {
        lemma_char_index_at(cs@.skip(start as int), c, i - start);
    }
    i
}

proof fn lemma_char_index_at(s: Seq<char>, c: char, k: int)
    requires
        0 <= k <= s.len(),
        forall|j: int| 0 <= j < k ==> s[j] != c,
        k == s.len() || s[k] == c,
    ensures
        char_index(s, c) == k,
    decreases s.len(),
{
    if k > 0 {
        lemma_char_index_at(s.drop_first(), c, k - 1);
    }
}

/// Plan the rewrite of manifest text: one entry per line of `text`, in
/// order, each kept or turned into the key of a segment under `prefix`.
pub fn plan_manifest(text: &str, prefix: &str) -> (r: Vec<ManifestLine>)
    ensures
        r@.len() == lines_spec(text@).len(),
        forall|i: int|
            0 <= i < r@.len() ==> line_view(#[trigger] r@[i]) == planned_line(
                lines_spec(text@)[i],
                prefix@,
            ),
{
    let cs = chars_of(text);
    let mut out: Vec<ManifestLine> = Vec::new();
    let mut start: usize = 0;
    let ghost mut done: Seq<Seq<char>> = Seq::empty();
    assert(cs@.skip(0) =~= text@);
    while start < cs.len()
        invariant
            start <= cs.len(),
            cs@ == text@,
            lines_spec(text@) == done + lines_spec(cs@.skip(start as int)),
            out@.len() == done.len(),
            forall|i: int|
                0 <= i < out@.len() ==> line_view(#[trigger] out@[i]) == planned_line(
                    done[i],
                    prefix@,
                ),
        decreases cs.len() - start,
    {
        let ghost t = cs@.skip(start as int);
        let j = index_from(&cs, start, '\n');
        let (head, rest) = cs.as_slice().split_at(j);
        let (_, body) = head.split_at(start);
        assert(body@ =~= t.take(j - start));
        if j < cs.len() {
            let n = body.len();
            let line: &[char] = if n > 0 && body[n - 1] == '\r' {
                let (l, _) = body.split_at(n - 1);
                l
            } else {
                body
            };
            assert(line@ =~= strip_cr(t.take(j - start)));
            let entry = plan_line(line, prefix);
            out.push(entry);
            proof {
                assert(t.skip(j - start + 1) =~= cs@.skip(j + 1));
                done = done + seq![strip_cr(t.take(j - start))];
            }
            start = j + 1;
        } else {
            assert(body@ =~= t);
            let entry = plan_line(body, prefix);
            out.push(entry);
            proof {
                assert(cs@.skip(cs.len() as int) =~= Seq::<char>::empty());
                done = done + seq![t];
            }
            start = cs.len();
        }
    }
    assert(cs@.skip(start as int) =~= Seq::<char>::empty());
    assert(done + Seq::<Seq<char>>::empty() =~= done);
    out
}

/// Plan the rewrite of a stored playlist of the asset stored at
/// `object_key`: its bytes are read as UTF-8 (invalid sequences replaced),
/// and segments live under `<object_key>/hls`.
pub fn plan_stored_manifest(raw: &[u8], object_key: &str) -> (r: Vec<ManifestLine>)
    ensures
        r@.len() == lines_spec(lossy_text(raw@)).len(),
        forall|i: int|
            0 <= i < r@.len() ==> line_view(#[trigger] r@[i]) == planned_line(
                lines_spec(lossy_text(raw@))[i],
                hls_prefix_spec(object_key@),
            ),
{
    let text = utf8_lossy(raw);
    let prefix = hls_prefix(object_key);
    plan_manifest(text.as_str(), prefix.as_str())
}

/// How many entries of a plan are segments.
pub open spec fn segment_count(lines: Seq<(bool, Seq<char>)>) -> nat
    decreases lines.len(),
{
    if lines.len() == 0 {
        0
    } else {
        (if lines[0].0 { 1nat } else { 0nat }) + segment_count(lines.drop_first())
    }
}

/// The rewritten manifest: each entry followed by `\n`, a kept line as it
/// is, the k-th segment replaced by the k-th URL.
pub open spec fn render_spec(lines: Seq<(bool, Seq<char>)>, urls: Seq<Seq<char>>) -> Seq<char>
    decreases lines.len(),
{
    if lines.len() == 0 {
        Seq::empty()
    } else if lines[0].0 {
        urls[0] + seq!['\n'] + render_spec(lines.drop_first(), urls.drop_first())
    } else {
        lines[0].1 + seq!['\n'] + render_spec(lines.drop_first(), urls)
    }
}

/// The views of a plan's entries.
pub open spec fn plan_views(lines: Seq<ManifestLine>) -> Seq<(bool, Seq<char>)> {
    lines.map_values(|l: ManifestLine| line_view(l))
}

/// The views of a list of strings.
pub open spec fn string_views(v: Seq<String>) -> Seq<Seq<char>> {
    v.map_values(|s: String| s@)
}

/// Write the rewritten manifest from its plan and the presigned URLs of its
/// segments, in order.
pub fn render_manifest(lines: &Vec<ManifestLine>, urls: &Vec<String>) -> (r: String)
    requires
        urls@.len() == segment_count(plan_views(lines@)),
    ensures
        r@ == render_spec(plan_views(lines@), string_views(urls@)),
{
    let ghost lv = plan_views(lines@);
    let ghost uv = string_views(urls@);
    let mut out = String::new();
    let mut i: usize = 0;
    let mut u: usize = 0;
    assert(lv.skip(0) =~= lv);
    assert(uv.skip(0) =~= uv);
    while i < lines.len()
        invariant
            i <= lines.len(),
            u <= urls.len(),
            lv == plan_views(lines@),
            uv == string_views(urls@),
            segment_count(lv.skip(i as int)) == urls.len() - u,
            out@ + render_spec(lv.skip(i as int), uv.skip(u as int)) == render_spec(lv, uv),
        decreases lines.len() - i,
    {
        let ghost rest = lv.skip(i as int);
        assert(rest[0] == line_view(lines@[i as int]));
        assert(rest.drop_first() =~= lv.skip(i + 1));
        match &lines[i] {
            ManifestLine::Literal(t) => {
                append_str(&mut out, t.as_str());
                push_char(&mut out, '\n');
            },
            ManifestLine::Segment(_) => {
                assert(uv.skip(u as int)[0] == urls@[u as int]@);
                assert(uv.skip(u as int).drop_first() =~= uv.skip(u + 1));
                append_str(&mut out, urls[u].as_str());
                push_char(&mut out, '\n');
                u += 1;
            },
        }
        i += 1;
    }
    assert(out@ + Seq::<char>::empty() =~= out@);
    out
}

} // verus!
