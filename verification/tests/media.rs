use core_api::error::{ApiError, DbErrorKind, DbFailure};
use core_api::media::asset::{
    asset_view, check_owner, check_upload, is_entitled, manifest_key, map_create_error,
    new_object_key, object_key, queues_transcode, require_entitled, shows_playback,
    transcode_mode, upload_ticket, MediaAsset,
};
use core_api::media::manifest::{
    child_key, hls_prefix, plan_manifest, plan_stored_manifest, render_manifest, ManifestLine,
};
use core_api::media::transcode::{
    content_type_for, ffmpeg_options, produced_file, transcode_output, TranscodeError,
};
use core_api::media::unlock::{
    debit_verdict, map_unlock_error, plan_unlock, unlock_charge, unlock_legs, unlock_split,
    unlock_summary, LedgerLeg, UnlockCharge, UnlockError, UnlockOutcome, UnlockSplit, COMPANY_ACCOUNT_ID,
};
use core_api::media::unlock::split_computable;

fn asset(owner_id: i64, status: &str, price: i64, hls: Option<&str>, transcode: &str) -> MediaAsset {
    MediaAsset {
        id: 7,
        owner_id,
        kind: "video".to_string(),
        object_key: "media/video/abc".to_string(),
        content_type: "video/mp4".to_string(),
        status: status.to_string(),
        size_bytes: Some(1024),
        hls_manifest_key: hls.map(|s| s.to_string()),
        transcode_status: transcode.to_string(),
        unlock_price: price,
    }
}

#[test]
fn upload_content_type_must_match_kind() {
    assert_eq!(check_upload("video/mp4", "video", 0), Ok(()));
    assert_eq!(check_upload("video", "video", 5), Ok(()));
    assert_eq!(
        check_upload("image/png", "video", 0),
        Err(ApiError::Validation("content_type_mismatch"))
    );
    assert_eq!(
        check_upload("videos/mp4", "video", 0),
        Err(ApiError::Validation("content_type_mismatch"))
    );
    assert_eq!(check_upload("audio/mpeg", "audio", -1), Err(ApiError::Validation("negative_price")));
    assert_eq!(
        check_upload("image/png", "video", -1),
        Err(ApiError::Validation("content_type_mismatch"))
    );
}

#[test]
fn object_keys_are_media_kind_uuid() {
    assert_eq!(object_key("audio", "x-y"), "media/audio/x-y");
    let k = new_object_key("image");
    assert!(k.starts_with("media/image/"));
    let id = &k["media/image/".len()..];
    assert_eq!(id.len(), 36);
    assert_eq!(id.as_bytes()[14], b'4');
    assert!(id.chars().enumerate().all(|(i, c)| if [8, 13, 18, 23].contains(&i) {
        c == '-'
    } else {
        c.is_ascii_hexdigit() && !c.is_ascii_uppercase()
    }));
    assert_ne!(new_object_key("image"), k);
}

#[test]
fn upload_tickets_last_fifteen_minutes() {
    let t = upload_ticket(3, "media/video/k".to_string(), "https://put".to_string());
    assert_eq!(t.asset_id, 3);
    assert_eq!(t.expires_in_secs, 900);
}

#[test]
fn missing_owner_is_a_client_error() {
    let fk = DbFailure { kind: DbErrorKind::ForeignKeyViolation, message: String::new() };
    assert_eq!(map_create_error(fk), ApiError::Validation("unknown_owner"));
}

#[test]
fn only_the_owner_finalizes() {
    assert_eq!(check_owner(1, 1), Ok(()));
    assert_eq!(check_owner(1, 2), Err(ApiError::Forbidden));
}

#[test]
fn playable_media_is_transcoded() {
    assert!(queues_transcode("video"));
    assert!(queues_transcode("audio"));
    assert!(!queues_transcode("image"));
    assert_eq!(transcode_mode("ready", "video"), Ok(true));
    assert_eq!(transcode_mode("ready", "audio"), Ok(false));
    assert_eq!(transcode_mode("pending", "video"), Err(ApiError::Validation("not_ready")));
    assert_eq!(transcode_mode("ready", "image"), Err(ApiError::Validation("not_transcodable")));
}

#[test]
fn entitlement_is_owner_free_or_unlocked() {
    let paid = asset(1, "ready", 50, None, "none");
    let free = asset(1, "ready", 0, None, "none");
    assert!(is_entitled(1, &paid, false));
    assert!(is_entitled(2, &free, false));
    assert!(!is_entitled(2, &paid, false));
    assert!(is_entitled(2, &paid, true));
    assert!(shows_playback(&paid, true));
    assert!(!shows_playback(&paid, false));
    assert!(!shows_playback(&asset(1, "pending", 0, None, "none"), true));
}

#[test]
fn views_copy_the_asset_and_flag_hls() {
    let v = asset_view(asset(1, "ready", 5, Some("k"), "done"), Some("https://get".to_string()));
    assert_eq!(v.id, 7);
    assert_eq!(v.owner_id, 1);
    assert_eq!(v.kind, "video");
    assert_eq!(v.size_bytes, Some(1024));
    assert_eq!(v.playback_url.as_deref(), Some("https://get"));
    assert!(v.hls_ready);
    assert_eq!(v.unlock_price, 5);
    assert!(!asset_view(asset(1, "ready", 5, None, "pending"), None).hls_ready);
}

#[test]
fn manifest_needs_a_finished_transcode_and_entitlement() {
    let done = asset(1, "ready", 5, Some("media/video/abc/hls/index.m3u8"), "done");
    assert_eq!(manifest_key(&done), Ok("media/video/abc/hls/index.m3u8"));
    let running = asset(1, "ready", 5, Some("k"), "running");
    assert_eq!(manifest_key(&running), Err(ApiError::Validation("not_transcoded")));
    let none = asset(1, "ready", 5, None, "done");
    assert_eq!(manifest_key(&none), Err(ApiError::Validation("not_transcoded")));
    assert_eq!(require_entitled(true), Ok(()));
    assert_eq!(require_entitled(false), Err(ApiError::PaymentRequired));
}

#[test]
fn split_conserves_the_price() {
    assert_eq!(
        unlock_split(1000, 1500, 500),
        UnlockSplit { price: 1000, creator_received: 800, company_fee: 150, burned: 50 }
    );
    // Rounding down the fee and the burn leaves the remainder with the creator.
    let s = unlock_split(7, 1500, 500);
    assert_eq!((s.company_fee, s.burned, s.creator_received), (1, 0, 6));
    for price in [1i64, 3, 99, 10_001, 123_456_789] {
        let s = unlock_split(price, 2500, 1000);
        assert_eq!(s.creator_received + s.company_fee + s.burned, price);
        assert!(s.creator_received >= 0);
    }
}

#[test]
fn unlock_requires_a_ready_priced_foreign_asset() {
    assert_eq!(plan_unlock("pending", 10, 1, 2, 1500, 500), Err(ApiError::Validation("not_ready")));
    assert_eq!(plan_unlock("ready", 0, 1, 2, 1500, 500), Err(ApiError::Validation("free_content")));
    assert_eq!(
        plan_unlock("ready", 10, 1, 1, 1500, 500),
        Err(ApiError::Validation("owner_already_entitled"))
    );
    assert_eq!(plan_unlock("ready", 100, 1, 2, 1500, 500), Ok(unlock_split(100, 1500, 500)));
}

#[test]
fn ledger_legs_skip_zero_amounts() {
    let s = unlock_split(1000, 1500, 500);
    assert_eq!(
        unlock_legs(4, COMPANY_ACCOUNT_ID, &s),
        vec![
            LedgerLeg::Credit { account_id: 4, amount: 800 },
            LedgerLeg::Credit { account_id: 0, amount: 150 },
            LedgerLeg::Burn { amount: 50 },
        ]
    );
    let small = unlock_split(7, 1500, 500);
    let legs = unlock_legs(4, COMPANY_ACCOUNT_ID, &small);
    assert_eq!(
        legs,
        vec![LedgerLeg::Credit { account_id: 4, amount: 6 }, LedgerLeg::Credit { account_id: 0, amount: 1 }]
    );
    let total: i64 = legs
        .iter()
        .map(|l| match l {
            LedgerLeg::Credit { amount, .. } => *amount,
            LedgerLeg::Burn { amount } => *amount,
        })
        .sum();
    assert_eq!(total, 7);
}

#[test]
fn unlock_transaction_steps() {
    let split = unlock_split(100, 1500, 500);
    assert_eq!(
        unlock_charge(0, 2, 9, COMPANY_ACCOUNT_ID, &split),
        UnlockCharge::NoCharge(UnlockOutcome { already_unlocked: true })
    );
    assert_eq!(
        unlock_charge(1, 2, 9, COMPANY_ACCOUNT_ID, &split),
        UnlockCharge::Charge { viewer_id: 2, amount: 100, legs: unlock_legs(9, COMPANY_ACCOUNT_ID, &split) }
    );
    assert!(debit_verdict(true).is_ok());
    assert!(matches!(debit_verdict(false), Err(UnlockError::InsufficientFunds)));
    assert_eq!(
        map_unlock_error(UnlockError::InsufficientFunds),
        ApiError::Validation("insufficient_gems")
    );
    let db = DbFailure { kind: DbErrorKind::Other, message: "x".to_string() };
    assert_eq!(map_unlock_error(UnlockError::Db(db.clone())), ApiError::Database(db));
    let s = unlock_summary(7, 2, unlock_split(100, 1500, 500), UnlockOutcome { already_unlocked: false });
    assert_eq!((s.asset_id, s.viewer_id, s.price, s.creator_received), (7, 2, 100, 80));
    assert_eq!((s.company_fee, s.burned, s.already_unlocked), (15, 5, false));
}

#[test]
fn manifest_segments_become_object_keys() {
    let plan = plan_manifest("#EXTM3U\r\n#EXT-X-VERSION:3\n\nseg_000.ts\nseg_001.ts", "media/v/k/hls");
    assert_eq!(
        plan,
        vec![
            ManifestLine::Literal("#EXTM3U".to_string()),
            ManifestLine::Literal("#EXT-X-VERSION:3".to_string()),
            ManifestLine::Literal(String::new()),
            ManifestLine::Segment("media/v/k/hls/seg_000.ts".to_string()),
            ManifestLine::Segment("media/v/k/hls/seg_001.ts".to_string()),
        ]
    );
    // A final terminator adds no line; a lone carriage return is kept.
    assert_eq!(plan_manifest("a\n", "p"), vec![ManifestLine::Segment("p/a".to_string())]);
    assert_eq!(plan_manifest("a\r", "p"), vec![ManifestLine::Segment("p/a\r".to_string())]);
    assert_eq!(plan_manifest("", "p"), vec![]);
}

#[test]
fn stored_manifest_is_read_lossily_under_the_hls_prefix() {
    assert_eq!(hls_prefix("media/video/abc"), "media/video/abc/hls");
    assert_eq!(child_key("a/hls", "seg.ts"), "a/hls/seg.ts");
    let plan = plan_stored_manifest(b"#EXTM3U\nseg_0.ts\n", "media/video/abc");
    assert_eq!(
        plan,
        vec![
            ManifestLine::Literal("#EXTM3U".to_string()),
            ManifestLine::Segment("media/video/abc/hls/seg_0.ts".to_string()),
        ]
    );
    let bad = plan_stored_manifest(&[b's', 0xff, b'\n'], "k");
    assert_eq!(bad, vec![ManifestLine::Segment("k/hls/s\u{fffd}".to_string())]);
}

#[test]
fn rendered_manifest_swaps_segments_for_urls() {
    let plan = plan_manifest("#EXTM3U\nseg_0.ts\n#EXT-X-ENDLIST\nseg_1.ts", "p");
    let urls = vec!["https://a".to_string(), "https://b".to_string()];
    assert_eq!(
        render_manifest(&plan, &urls),
        "#EXTM3U\nhttps://a\n#EXT-X-ENDLIST\nhttps://b\n"
    );
    assert_eq!(render_manifest(&vec![], &vec![]), "");
}

#[test]
fn produced_files_get_content_types() {
    assert_eq!(content_type_for("index.m3u8"), "application/vnd.apple.mpegurl");
    assert_eq!(content_type_for("seg_000.ts"), "video/mp2t");
    assert_eq!(content_type_for("notes.txt"), "application/octet-stream");
    assert_eq!(content_type_for("ts"), "application/octet-stream");
    assert!(produced_file("input".to_string(), vec![1]).is_none());
    let f = produced_file("seg_001.ts".to_string(), vec![1, 2]).unwrap();
    assert_eq!((f.name.as_str(), f.bytes.as_slice(), f.content_type), ("seg_001.ts", &[1u8, 2][..], "video/mp2t"));
    let out = transcode_output(vec![f]);
    assert_eq!(out.manifest_name, "index.m3u8");
    assert_eq!(out.files.len(), 1);
}

#[test]
fn ffmpeg_options_per_pipeline() {
    assert_eq!(
        ffmpeg_options(true),
        vec!["-c:v", "libx264", "-c:a", "aac", "-hls_time", "4", "-hls_playlist_type", "vod", "-hls_segment_filename"]
    );
    assert_eq!(
        ffmpeg_options(false),
        vec!["-vn", "-c:a", "aac", "-hls_time", "4", "-hls_playlist_type", "vod", "-hls_segment_filename"]
    );
}

#[test]
fn transcode_errors_have_messages() {
    assert_eq!(TranscodeError::Ffmpeg("bad input".to_string()).message(), "ffmpeg failed: bad input");
    let io = TranscodeError::Io(std::io::Error::new(std::io::ErrorKind::Other, "disk"));
    assert_eq!(io.message(), "io error: disk");
}

#[test]
fn split_computability_is_decided_exactly() {
    assert!(split_computable(1000, 1500, 500));
    assert!(split_computable(0, 65535, 65535));
    assert!(!split_computable(-1, 0, 0));
    assert!(split_computable(i64::MAX / 65535, 65535, 65535));
    assert!(!split_computable(i64::MAX / 65535 + 1, 65535, 0));
    assert!(split_computable(i64::MAX, 0, 0));
}

#[test]
fn repeat_unlock_charges_nothing() {
    let split = unlock_split(250, 1000, 200);
    // First unlock claims the entitlement (one row) and is charged in full.
    match unlock_charge(1, 4, 8, COMPANY_ACCOUNT_ID, &split) {
        UnlockCharge::Charge { viewer_id, amount, legs } => {
            assert_eq!((viewer_id, amount), (4, 250));
            assert_eq!(
                legs,
                vec![
                    LedgerLeg::Credit { account_id: 8, amount: 220 },
                    LedgerLeg::Credit { account_id: COMPANY_ACCOUNT_ID, amount: 25 },
                    LedgerLeg::Burn { amount: 5 },
                ]
            );
            let moved: i64 = legs
                .iter()
                .map(|l| match l {
                    LedgerLeg::Credit { amount, .. } => *amount,
                    LedgerLeg::Burn { amount } => *amount,
                })
                .sum();
            assert_eq!(moved, amount);
        }
        other => panic!("first unlock must charge, got {other:?}"),
    }
    // The same pair again: the claim touches no row, nothing is charged.
    assert_eq!(
        unlock_charge(0, 4, 8, COMPANY_ACCOUNT_ID, &split),
        UnlockCharge::NoCharge(UnlockOutcome { already_unlocked: true })
    );
}
