use core_api::config::{flag_on, parsed_i64_or, parsed_u32_or, parsed_u64_or};
use core_api::mailer::{LogMailer, MailError, Mailer};
use core_api::auth::model::CodePurpose;
use core_api::text::{append_str, ends_with, split_first, str_eq};

#[test]
fn settings_parse_like_from_str() {
    assert_eq!(parsed_u64_or(Some("+42"), 1), 42);
    assert_eq!(parsed_u64_or(Some(" 42"), 1), 1);
    assert_eq!(parsed_u64_or(Some("18446744073709551616"), 1), 1);
    assert_eq!(parsed_u32_or(Some("4294967295"), 1), u32::MAX);
    assert_eq!(parsed_u32_or(Some("4294967296"), 1), 1);
    assert_eq!(parsed_i64_or(Some("-9223372036854775808"), 0), i64::MIN);
    assert_eq!(parsed_i64_or(None, 3), 3);
    assert!(flag_on(Some("true")));
    assert!(!flag_on(Some("1")));
    assert!(!flag_on(None));
}

#[test]
fn string_helpers() {
    let mut s = String::from("ab");
    append_str(&mut s, "cé");
    assert_eq!(s, "abcé");
    assert!(ends_with("index.m3u8", ".m3u8"));
    assert!(!ends_with("m3u8", ".m3u8"));
    assert_eq!(split_first("video/mp4", '/'), "video");
    assert_eq!(split_first("video", '/'), "video");
    assert_eq!(split_first("/x", '/'), "");
    assert!(str_eq("é", "é"));
    assert!(!str_eq("e", "é"));
}

#[test]
fn dev_mailer_never_fails() {
    assert!(LogMailer.send_code("a@b.c", CodePurpose::Login, "123456").is_ok());
    assert_eq!(MailError("smtp down".to_string()).message(), "smtp down");
}
