use core_api::error::{ApiError, DbErrorKind, DbFailure};
use core_api::signals::validate::{
    map_fk, prepare_writeback, validate_embedding, validate_v1, EmbeddingFacts, SignalDocument,
    SignalField, SignalItem,
};

fn doc(entries: Vec<(&str, SignalField)>) -> SignalDocument {
    SignalDocument::Object(entries.into_iter().map(|(k, v)| (k.to_string(), v)).collect())
}

fn topics(ts: &[&str]) -> SignalField {
    SignalField::Array(ts.iter().map(|t| SignalItem::Str(t.to_string())).collect())
}

#[test]
fn typed_core_accepts_a_full_document() {
    let d = doc(vec![
        ("quality", SignalField::Number { in_unit_interval: true }),
        ("bot_likelihood", SignalField::Null),
        ("nsfw_likelihood", SignalField::Number { in_unit_interval: true }),
        ("topics", topics(&["tech", "music"])),
        ("language", SignalField::Str("zh-hant".to_string())),
        ("extras", SignalField::Object),
    ]);
    assert_eq!(validate_v1(&d), Ok(()));
    assert_eq!(validate_v1(&doc(vec![])), Ok(()));
}

#[test]
fn typed_core_rejects_each_bad_field() {
    let v = |k: &str, f: SignalField| validate_v1(&doc(vec![(k, f)]));
    assert_eq!(validate_v1(&SignalDocument::NotObject), Err(ApiError::Validation("signals_not_an_object")));
    assert_eq!(v("quality", SignalField::Number { in_unit_interval: false }), Err(ApiError::Validation("invalid_quality")));
    assert_eq!(v("bot_likelihood", SignalField::Bool(true)), Err(ApiError::Validation("invalid_bot_likelihood")));
    assert_eq!(v("nsfw_likelihood", SignalField::Str("0.5".to_string())), Err(ApiError::Validation("invalid_nsfw_likelihood")));
    assert_eq!(v("topics", topics(&["Tech"])), Err(ApiError::Validation("invalid_topics")));
    assert_eq!(v("topics", topics(&["a", "a"])), Err(ApiError::Validation("invalid_topics")));
    assert_eq!(v("topics", topics(&[""])), Err(ApiError::Validation("invalid_topics")));
    assert_eq!(v("topics", topics(&[" a"])), Err(ApiError::Validation("invalid_topics")));
    assert_eq!(v("topics", SignalField::Array(vec![SignalItem::Other])), Err(ApiError::Validation("invalid_topics")));
    let many: Vec<String> = (0..17).map(|i| format!("t{i}")).collect();
    let many_refs: Vec<&str> = many.iter().map(|s| s.as_str()).collect();
    assert_eq!(v("topics", topics(&many_refs)), Err(ApiError::Validation("invalid_topics")));
    assert_eq!(v("topics", topics(&many_refs[..16])), Ok(()));
    assert_eq!(v("language", SignalField::Str("e".to_string())), Err(ApiError::Validation("invalid_language")));
    assert_eq!(v("language", SignalField::Str("-en".to_string())), Err(ApiError::Validation("invalid_language")));
    assert_eq!(v("language", SignalField::Str("en-".to_string())), Err(ApiError::Validation("invalid_language")));
    assert_eq!(v("language", SignalField::Str("EN".to_string())), Err(ApiError::Validation("invalid_language")));
    assert_eq!(v("extras", SignalField::Array(vec![])), Err(ApiError::Validation("invalid_extras")));
    assert_eq!(v("mood", SignalField::Null), Err(ApiError::Validation("unknown_signal_field")));
}

#[test]
fn first_bad_entry_decides() {
    let d = doc(vec![
        ("mood", SignalField::Null),
        ("quality", SignalField::Number { in_unit_interval: false }),
    ]);
    assert_eq!(validate_v1(&d), Err(ApiError::Validation("unknown_signal_field")));
}

#[test]
fn embeddings_are_non_empty_bounded_and_finite() {
    assert_eq!(validate_embedding(EmbeddingFacts { len: 384, all_finite: true }), Ok(()));
    assert_eq!(validate_embedding(EmbeddingFacts { len: 4096, all_finite: true }), Ok(()));
    let bad = Err(ApiError::Validation("invalid_embedding"));
    assert_eq!(validate_embedding(EmbeddingFacts { len: 0, all_finite: true }), bad);
    assert_eq!(validate_embedding(EmbeddingFacts { len: 4097, all_finite: true }), bad);
    assert_eq!(validate_embedding(EmbeddingFacts { len: 3, all_finite: false }), bad);
}

#[test]
fn writebacks_are_checked_in_order() {
    let ok = doc(vec![]);
    let bad = SignalDocument::NotObject;
    let emb = Some(EmbeddingFacts { len: 8, all_finite: true });
    assert_eq!(prepare_writeback(" v1.2 ", 1, &ok, emb), Ok("v1.2"));
    assert_eq!(prepare_writeback("   ", 7, &bad, None), Err(ApiError::Validation("empty_model_version")));
    assert_eq!(prepare_writeback("m", 2, &ok, None), Err(ApiError::Validation("unknown_schema_version")));
    assert_eq!(prepare_writeback("m", 0, &bad, None), Ok("m"));
    assert_eq!(prepare_writeback("m", 1, &bad, None), Err(ApiError::Validation("signals_not_an_object")));
    assert_eq!(
        prepare_writeback("m", 0, &ok, Some(EmbeddingFacts { len: 0, all_finite: true })),
        Err(ApiError::Validation("invalid_embedding"))
    );
    let fk = DbFailure { kind: DbErrorKind::ForeignKeyViolation, message: String::new() };
    assert_eq!(map_fk(fk), ApiError::Validation("unknown_post"));
}
