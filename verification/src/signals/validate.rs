//! Validation of a signal write-back. `schema_version` 0 is legacy free-form
//! (accepted unvalidated), 1 is the typed core below, anything newer is
//! rejected (fail closed).
//!
//! The JSON document is held as what the checks read of it: the top-level
//! entries in iteration order, each value's JSON type, whether a number lies
//! in `[0, 1]`, and the strings inside arrays.

use vstd::prelude::*;
use crate::error::{ApiError, DbFailure, fk_mapped};
use crate::text::{
    byte_len, chars_of, lowercase, str_eq, to_lowercase, trim, trim_spec, utf8_len,
};

verus! {

/// Most topics a v1 document may carry.
pub const MAX_TOPICS: usize = 16;
/// Longest topic, in bytes.
pub const MAX_TOPIC_LEN: usize = 64;
/// Longest language tag, in bytes (longest legal BCP-47 primary form).
pub const MAX_LANGUAGE_LEN: usize = 35;
/// Hard ceiling on embedding dimensionality.
pub const MAX_EMBEDDING_DIM: usize = 4096;

/// One element of a JSON array: a string, or any other JSON value.
#[derive(Debug, Clone, PartialEq)]
pub enum SignalItem {
    Str(String),
    Other,
}

/// A JSON value under a top-level key. A number is held by whether it lies in
/// the closed unit interval (JSON numbers are never NaN or infinite).
#[derive(Debug, Clone, PartialEq)]
pub enum SignalField {
    Null,
    Bool(bool),
    Number { in_unit_interval: bool },
    Str(String),
    Array(Vec<SignalItem>),
    Object,
}

/// The `signals` document: an object with its entries in iteration order, or
/// a value of another JSON type.
#[derive(Debug, Clone, PartialEq)]
pub enum SignalDocument {
    Object(Vec<(String, SignalField)>),
    NotObject,
}

/// What the write-back checks read of an embedding: its dimension and whether
/// every component is finite.
#[derive(Debug, Clone, Copy, PartialEq, Eq)]
pub struct EmbeddingFacts {
    pub len: usize,
    pub all_finite: bool,
}

/// A score in `[0, 1]`, or null.
pub open spec fn unit_score_ok(v: SignalField) -> bool {
    match v {
        SignalField::Null => true,
        SignalField::Number { in_unit_interval } => in_unit_interval,
        _ => false,
    }
}

/// A character allowed in a language tag: lower-case ASCII letter, digit, `-`.
pub open spec fn language_char(c: char) -> bool {
    ('a' <= c <= 'z') || ('0' <= c <= '9') || c == '-'
}

/// A loose BCP-47 primary tag: 2..=35 bytes of allowed characters, not
/// starting or ending with `-`.
pub open spec fn language_tag_ok(s: Seq<char>) -> bool {
    &&& 2 <= utf8_len(s) <= MAX_LANGUAGE_LEN
    &&& forall|i: int| 0 <= i < s.len() ==> language_char(#[trigger] s[i])
    &&& !(s.len() > 0 && s[0] == '-')
    &&& !(s.len() > 0 && s.last() == '-')
}

/// A language value: null or a well-formed tag.
pub open spec fn language_ok(v: SignalField) -> bool {
    match v {
        SignalField::Null => true,
        SignalField::Str(s) => language_tag_ok(s@),
        _ => false,
    }
}

/// Whether an array element is the string `s`.
pub open spec fn is_str(item: SignalItem, s: Seq<char>) -> bool {
    match item {
        SignalItem::Str(t) => t@ == s,
        SignalItem::Other => false,
    }
}

/// Topic `i` breaks the namespace rules: not a string, empty, longer than 64
/// bytes, not in normalized form (trimmed, lower-case), or a repeat.
pub open spec fn topic_bad(items: Seq<SignalItem>, i: int) -> bool {
    match items[i] {
        SignalItem::Other => true,
        SignalItem::Str(s) => {
            ||| s@.len() == 0
            ||| utf8_len(s@) > MAX_TOPIC_LEN
            ||| s@ != lowercase(trim_spec(s@))
            ||| exists|k: int| 0 <= k < i && #[trigger] is_str(items[k], s@)
        },
    }
}

/// A topics value: null, or an array of at most 16 topics, none bad.
pub open spec fn topics_ok(v: SignalField) -> bool {
    match v {
        SignalField::Null => true,
        SignalField::Array(items) => items@.len() <= MAX_TOPICS && forall|i: int|
            0 <= i < items@.len() ==> !#[trigger] topic_bad(items@, i),
        _ => false,
    }
}

/// The error code for one top-level entry, or `None` when it is acceptable.
pub open spec fn field_error(key: Seq<char>, v: SignalField) -> Option<&'static str> {
    if key == "quality"@ {
        if unit_score_ok(v) { None } else { Some("invalid_quality") }
    } else if key == "bot_likelihood"@ {
        if unit_score_ok(v) { None } else { Some("invalid_bot_likelihood") }
    } else if key == "nsfw_likelihood"@ {
        if unit_score_ok(v) { None } else { Some("invalid_nsfw_likelihood") }
    } else if key == "topics"@ {
        if topics_ok(v) { None } else { Some("invalid_topics") }
    } else if key == "language"@ {
        if language_ok(v) { None } else { Some("invalid_language") }
    } else if key == "extras"@ {
        match v {
            SignalField::Null | SignalField::Object => None,
            _ => Some("invalid_extras"),
        }
    } else {
        Some("unknown_signal_field")
    }
}

/// The error of the first unacceptable entry, in iteration order.
pub open spec fn first_error(entries: Seq<(String, SignalField)>) -> Option<&'static str>
    decreases entries.len(),
{
    if entries.len() == 0 {
        None
    } else {
        match field_error(entries[0].0@, entries[0].1) {
            Some(c) => Some(c),
            None => first_error(entries.drop_first()),
        }
    }
}

/// The typed v1 core: an object whose entries are all known and well-typed.
pub open spec fn validate_v1_spec(doc: SignalDocument) -> Result<(), ApiError> {
    match doc {
        SignalDocument::NotObject => Err(ApiError::Validation("signals_not_an_object")),
        SignalDocument::Object(entries) => match first_error(entries@) {
            Some(c) => Err(ApiError::Validation(c)),
            None => Ok(()),
        },
    }
}

fn validate_unit_score(value: &SignalField, code: &'static str) -> (r: Result<(), ApiError>)
    ensures
        r == (if unit_score_ok(*value) { Ok(()) } else { Err(ApiError::Validation(code)) }),
{
    match value {
        SignalField::Null => Ok(()),
        SignalField::Number { in_unit_interval } => if *in_unit_interval {
            Ok(())
        } else {
            Err(ApiError::Validation(code))
        },
        _ => Err(ApiError::Validation(code)),
    }
}

fn topic_ok_exec(items: &Vec<SignalItem>, i: usize) -> (r: bool)
    requires
        i < items.len(),
    ensures
        r == !topic_bad(items@, i as int),
{
    match &items[i] {
        SignalItem::Other => false,
        SignalItem::Str(s) => {
            let normalized = to_lowercase(trim(s.as_str()));
            if byte_len(s.as_str()) == 0 || byte_len(s.as_str()) > MAX_TOPIC_LEN || !str_eq(
                s.as_str(),
                normalized.as_str(),
            ) {
                proof {
                    if s@.len() != 0 {
                        vstd::utf8::encode_utf8_first_scalar(s@);
                    }
                }
                return false;
            }
            proof {
                if s@.len() == 0 {
                    assert(utf8_len(s@) == 0);
                }
            }
            let mut k: usize = 0;
            while k < i
                invariant
                    k <= i < items.len(),
                    items@[i as int] == SignalItem::Str(*s),
                    forall|m: int|
                        0 <= m < k ==> !#[trigger] is_str(items@[m], s@),
                decreases i - k,
            {
                match &items[k] {
                    SignalItem::Str(t) => {
                        if str_eq(t.as_str(), s.as_str()) {
                            assert(is_str(items@[k as int], s@));
                            return false;
                        }
                    },
                    SignalItem::Other => {},
                }
                k += 1;
            }
            true
        },
    }
}

fn validate_topics(value: &SignalField) -> (r: Result<(), ApiError>)
    ensures
        r == (if topics_ok(*value) { Ok(()) } else { Err(ApiError::Validation("invalid_topics")) }),
{
    match value {
        SignalField::Null => Ok(()),
        SignalField::Array(items) => {
            if items.len() > MAX_TOPICS {
                return Err(ApiError::Validation("invalid_topics"));
            }
            let mut i: usize = 0;
            while i < items.len()
                invariant
                    i <= items.len(),
                    *value == SignalField::Array(*items),
                    forall|j: int| 0 <= j < i ==> !#[trigger] topic_bad(items@, j),
                decreases items.len() - i,
            {
                if !topic_ok_exec(items, i) {
                    assert(topic_bad(items@, i as int));
                    return Err(ApiError::Validation("invalid_topics"));
                }
                i += 1;
            }
            Ok(())
        },
        _ => Err(ApiError::Validation("invalid_topics")),
    }
}

fn validate_language(value: &SignalField) -> (r: Result<(), ApiError>)
    ensures
        r == (if language_ok(*value) { Ok(()) } else { Err(ApiError::Validation("invalid_language")) }),
{
    match value {
        SignalField::Null => Ok(()),
        SignalField::Str(s) => {
            let n = byte_len(s.as_str());
            let cs = chars_of(s.as_str());
            let mut all_ok = true;
            let mut i: usize = 0;
            while i < cs.len()
                invariant
                    i <= cs.len(),
                    all_ok == forall|j: int| 0 <= j < i ==> language_char(#[trigger] cs@[j]),
                decreases cs.len() - i,
            {
                let c = cs[i];
                let ok = ('a' <= c && c <= 'z') || ('0' <= c && c <= '9') || c == '-';
                proof {
                    if !ok {
                        assert(!language_char(cs@[i as int]));
                    }
                }
                all_ok = all_ok && ok;
                i += 1;
            }
            let starts = cs.len() > 0 && cs[0] == '-';
            let ends = cs.len() > 0 && cs[cs.len() - 1] == '-';
            if 2 <= n && n <= MAX_LANGUAGE_LEN && all_ok && !starts && !ends {
                Ok(())
            } else {
                Err(ApiError::Validation("invalid_language"))
            }
        },
        _ => Err(ApiError::Validation("invalid_language")),
    }
}

fn field_check(key: &String, value: &SignalField) -> (r: Result<(), ApiError>)
    ensures
        r == (match field_error(key@, *value) {
            Some(c) => Err(ApiError::Validation(c)),
            None => Ok(()),
        }),
{
    if str_eq(key.as_str(), "quality") {
        validate_unit_score(value, "invalid_quality")
    } else if str_eq(key.as_str(), "bot_likelihood") {
        validate_unit_score(value, "invalid_bot_likelihood")
    } else if str_eq(key.as_str(), "nsfw_likelihood") {
        validate_unit_score(value, "invalid_nsfw_likelihood")
    } else if str_eq(key.as_str(), "topics") {
        validate_topics(value)
    } else if str_eq(key.as_str(), "language") {
        validate_language(value)
    } else if str_eq(key.as_str(), "extras") {
        match value {
            SignalField::Null | SignalField::Object => Ok(()),
            _ => Err(ApiError::Validation("invalid_extras")),
        }
    } else {
        Err(ApiError::Validation("unknown_signal_field"))
    }
}

/// The typed v1 core (every field optional; a present field must have the
/// right type and range; unknown top-level keys are rejected; JSON `null`
/// counts as absent). The first offending entry decides the error.
pub fn validate_v1(signals: &SignalDocument) -> (r: Result<(), ApiError>)
    ensures
        r == validate_v1_spec(*signals),
{
    match signals {
        SignalDocument::NotObject => Err(ApiError::Validation("signals_not_an_object")),
        SignalDocument::Object(entries) => {
            let mut i: usize = 0;
            assert(entries@.skip(0) =~= entries@);
            while i < entries.len()
                invariant
                    i <= entries.len(),
                    *signals == SignalDocument::Object(*entries),
                    first_error(entries@) == first_error(entries@.skip(i as int)),
                decreases entries.len() - i,
            {
                let ghost rest = entries@.skip(i as int);
                assert(rest.drop_first() =~= entries@.skip(i + 1));
                assert(rest[0] == entries@[i as int]);
                let r = field_check(&entries[i].0, &entries[i].1);
                if r.is_err() {
                    return r;
                }
                i += 1;
            }
            assert(entries@.skip(i as int).len() == 0);
            Ok(())
        },
    }
}

/// Accepted topics are pairwise distinct: a topics value in which two
/// different positions hold strings with the same text is refused, wherever
/// the two stand.
pub proof fn lemma_topics_distinct(items: Vec<SignalItem>, j: int, k: int)
    requires
        0 <= j < items@.len(),
        0 <= k < items@.len(),
        j != k,
        items@[j] matches SignalItem::Str(a) && items@[k] matches SignalItem::Str(b) && a@ == b@,
    ensures
        !topics_ok(SignalField::Array(items)),
{
    let (lo, hi) = if j < k { (j, k) } else { (k, j) };
    if let SignalItem::Str(t) = items@[hi] {
        assert(is_str(items@[lo], t@));
        assert(topic_bad(items@, hi));
    }
}

proof fn lemma_first_error_at(entries: Seq<(String, SignalField)>, e: int)
    requires
        0 <= e < entries.len(),
        forall|i: int| 0 <= i < e ==> (#[trigger] field_error(entries[i].0@, entries[i].1)) is None,
        field_error(entries[e].0@, entries[e].1) is Some,
    ensures
        first_error(entries) == field_error(entries[e].0@, entries[e].1),
    decreases e,
{
    if e > 0 {
        assert(field_error(entries[0].0@, entries[0].1) is None);
        let rest = entries.drop_first();
        assert forall|i: int| 0 <= i < e - 1 implies (#[trigger] field_error(rest[i].0@, rest[i].1))
            is None by {
            assert(rest[i] == entries[i + 1]);
            assert(field_error(entries[i + 1].0@, entries[i + 1].1) is None);
        }
        assert(rest[e - 1] == entries[e]);
        lemma_first_error_at(rest, e - 1);
    }
}

proof fn lemma_first_error_none(entries: Seq<(String, SignalField)>, e: int)
    requires
        0 <= e < entries.len(),
        first_error(entries) is None,
    ensures
        field_error(entries[e].0@, entries[e].1) is None,
    decreases e,
{
    if e > 0 {
        let rest = entries.drop_first();
        assert(rest[e - 1] == entries[e]);
        lemma_first_error_none(rest, e - 1);
    }
}

/// A v1 document whose `topics` entry repeats a topic (at any two
/// positions) is refused: validation fails, and when every entry before it
/// is acceptable the error is `invalid_topics`, also for a write-back of
/// schema version 1 with a model version that is not blank.
pub proof fn lemma_v1_rejects_repeated_topics(
    entries: Vec<(String, SignalField)>,
    e: int,
    items: Vec<SignalItem>,
    j: int,
    k: int,
    model_version: Seq<char>,
    embedding: Option<EmbeddingFacts>,
)
    requires
        0 <= e < entries@.len(),
        entries@[e].0@ == "topics"@,
        entries@[e].1 == SignalField::Array(items),
        0 <= j < items@.len(),
        0 <= k < items@.len(),
        j != k,
        items@[j] matches SignalItem::Str(a) && items@[k] matches SignalItem::Str(b) && a@ == b@,
    ensures
        validate_v1_spec(SignalDocument::Object(entries)) is Err,
        (forall|i: int| 0 <= i < e ==> (#[trigger] field_error(entries@[i].0@, entries@[i].1)) is None)
            ==> {
            &&& validate_v1_spec(SignalDocument::Object(entries)) == Err::<(), ApiError>(
                ApiError::Validation("invalid_topics"),
            )
            &&& trim_spec(model_version).len() != 0 ==> writeback_spec(
                model_version,
                1,
                SignalDocument::Object(entries),
                embedding,
            ) == Err::<Seq<char>, ApiError>(ApiError::Validation("invalid_topics"))
        },
{
    lemma_topics_distinct(items, j, k);
    reveal_strlit("topics");
    reveal_strlit("quality");
    reveal_strlit("bot_likelihood");
    reveal_strlit("nsfw_likelihood");
    assert("topics"@[0] != "quality"@[0]);
    assert("topics"@[0] != "bot_likelihood"@[0]);
    assert("topics"@[0] != "nsfw_likelihood"@[0]);
    assert(field_error(entries@[e].0@, entries@[e].1) == Some("invalid_topics"));
    if first_error(entries@) is None {
        lemma_first_error_none(entries@, e);
    }
    if forall|i: int| 0 <= i < e ==> (#[trigger] field_error(entries@[i].0@, entries@[i].1)) is None {
        lemma_first_error_at(entries@, e);
    }
}

/// An embedding must be non-empty, at most 4096-dimensional and finite.
pub open spec fn embedding_ok(e: EmbeddingFacts) -> bool {
    e.len > 0 && e.len <= MAX_EMBEDDING_DIM && e.all_finite
}

/// Check an embedding's shape and finiteness.
pub fn validate_embedding(e: EmbeddingFacts) -> (r: Result<(), ApiError>)
    ensures
        r == (if embedding_ok(e) { Ok(()) } else { Err(ApiError::Validation("invalid_embedding")) }),
{
    if e.len == 0 || e.len > MAX_EMBEDDING_DIM || !e.all_finite {
        Err(ApiError::Validation("invalid_embedding"))
    } else {
        Ok(())
    }
}

/// The checks of a write-back, in order: a non-empty trimmed model version,
/// a known schema version (1 is validated), a sound embedding when one is
/// delivered. On success, the trimmed model version to store.
pub open spec fn writeback_spec(
    model_version: Seq<char>,
    schema_version: i16,
    signals: SignalDocument,
    embedding: Option<EmbeddingFacts>,
) -> Result<Seq<char>, ApiError> {
    if trim_spec(model_version).len() == 0 {
        Err(ApiError::Validation("empty_model_version"))
    } else if schema_version != 0 && schema_version != 1 {
        Err(ApiError::Validation("unknown_schema_version"))
    } else if schema_version == 1 && validate_v1_spec(signals) is Err {
        Err(validate_v1_spec(signals)->Err_0)
    } else if embedding matches Some(e) && !embedding_ok(e) {
        Err(ApiError::Validation("invalid_embedding"))
    } else {
        Ok(trim_spec(model_version))
    }
}

/// Validate a signal write-back and return the trimmed model version.
pub fn prepare_writeback<'a>(
    model_version: &'a str,
    schema_version: i16,
    signals: &SignalDocument,
    embedding: Option<EmbeddingFacts>,
) -> (r: Result<&'a str, ApiError>)
    ensures
        match writeback_spec(model_version@, schema_version, *signals, embedding) {
            Ok(v) => r matches Ok(s) && s@ == v,
            Err(e) => r == Err::<&str, ApiError>(e),
        },
{
    let mv = trim(model_version);
    if byte_len(mv) == 0 {
        proof {
            if mv@.len() != 0 {
                vstd::utf8::encode_utf8_first_scalar(mv@);
            }
        }
        return Err(ApiError::Validation("empty_model_version"));
    }
    proof {
        if mv@.len() == 0 {
            assert(utf8_len(mv@) == 0);
        }
    }
    if schema_version == 1 {
        let v = validate_v1(signals);
        if let Err(e) = v {
            return Err(e);
        }
    } else if schema_version != 0 {
        return Err(ApiError::Validation("unknown_schema_version"));
    }
    if let Some(e) = embedding {
        if let Err(err) = validate_embedding(e) {
            return Err(err);
        }
    }
    Ok(mv)
}

/// A write-back for a non-existent post hits the foreign key: `unknown_post`.
pub fn map_fk(err: DbFailure) -> (r: ApiError)
    ensures
        r == fk_mapped(err, ApiError::Validation("unknown_post")),
{
    ApiError::on_fk_violation(err, ApiError::Validation("unknown_post"))
}

} // verus!
