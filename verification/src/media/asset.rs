//! Media assets: what an upload must satisfy, where it is stored, and what a
//! viewer is shown of it.

use vstd::prelude::*;
use vstd::string::*;
use crate::error::{fk_mapped, ApiError, DbFailure};
use crate::text::{append_str, before_first, split_first, str_eq};

verus! {

/// How long an upload ticket is valid, in seconds.
pub const UPLOAD_TTL_SECS: u64 = 900;
/// How long a direct download / playback URL is valid, in seconds.
pub const PLAYBACK_TTL_SECS: u64 = 3600;
/// How long an HLS segment URL is valid, in seconds (a whole viewing session).
pub const HLS_SEGMENT_TTL_SECS: u64 = 21600;

/// A stored media asset, as the media logic reads it.
#[derive(Debug, Clone)]
pub struct MediaAsset {
    pub id: i64,
    pub owner_id: i64,
    pub kind: String,
    pub object_key: String,
    pub content_type: String,
    pub status: String,
    pub size_bytes: Option<i64>,
    pub hls_manifest_key: Option<String>,
    pub transcode_status: String,
    pub unlock_price: i64,
}

/// What a client is shown of an asset.
#[derive(Debug, Clone)]
pub struct MediaAssetView {
    pub id: i64,
    pub owner_id: i64,
    pub kind: String,
    pub content_type: String,
    pub status: String,
    pub size_bytes: Option<i64>,
    pub playback_url: Option<String>,
    pub hls_ready: bool,
    pub unlock_price: i64,
}

/// A presigned upload slot for a freshly created asset.
#[derive(Debug, Clone)]
pub struct UploadTicket {
    pub asset_id: i64,
    pub object_key: String,
    pub upload_url: String,
    pub expires_in_secs: u64,
}

/// The verdict on an upload request: the content type's top-level type must
/// be the declared kind, and the price must not be negative.
pub open spec fn upload_check_spec(content_type: Seq<char>, kind: Seq<char>, unlock_price: i64)
    -> Result<(), ApiError>
{
    if before_first(content_type, '/') != kind {
        Err(ApiError::Validation("content_type_mismatch"))
    } else if unlock_price < 0 {
        Err(ApiError::Validation("negative_price"))
    } else {
        Ok(())
    }
}

/// Check an upload request before anything is stored.
pub fn check_upload(content_type: &str, kind: &str, unlock_price: i64) -> (r: Result<(), ApiError>)
    ensures
        r == upload_check_spec(content_type@, kind@, unlock_price),
{
    let top_level = split_first(content_type, '/');
    if !str_eq(top_level.as_str(), kind) {
        return Err(ApiError::Validation("content_type_mismatch"));
    }
    if unlock_price < 0 {
        return Err(ApiError::Validation("negative_price"));
    }
    Ok(())
}

/// Whether `c` is a lower-case hexadecimal digit.
pub open spec fn is_lower_hex_char(c: char) -> bool {
    ('0' <= c <= '9') || ('a' <= c <= 'f')
}

/// The text of a random (version 4) UUID in hyphenated lower-case form.
pub open spec fn is_uuid_v4_text(t: Seq<char>) -> bool {
    &&& t.len() == 36
    &&& forall|i: int|
        0 <= i < 36 ==> if i == 8 || i == 13 || i == 18 || i == 23 {
            t[i] == '-'
        } else {
            is_lower_hex_char(#[trigger] t[i])
        }
    &&& t[14] == '4'
}

/// Trusted: `uuid::Uuid::new_v4` formatted with `to_string`. Claims that the
/// text is a hyphenated lower-case version-4 UUID; which one is random.
#[verifier::external_body]
fn new_uuid_v4() -> (r: String)
    ensures
        is_uuid_v4_text(r@),
{
    uuid::Uuid::new_v4().to_string()
}

/// The storage key of an asset of `kind` with random id `id`.
pub open spec fn object_key_spec(kind: Seq<char>, id: Seq<char>) -> Seq<char> {
    "media/"@ + kind + "/"@ + id
}

/// `media/<kind>/<id>`.
pub fn object_key(kind: &str, id: &str) -> (r: String)
    ensures
        r@ == object_key_spec(kind@, id@),
{
    let mut s = String::new();
    append_str(&mut s, "media/");
    append_str(&mut s, kind);
    append_str(&mut s, "/");
    append_str(&mut s, id);
    s
}

/// An opaque, non-enumerable storage key for a new asset of `kind`.
pub fn new_object_key(kind: &str) -> (r: String)
    ensures
        exists|id: Seq<char>| is_uuid_v4_text(id) && r@ == object_key_spec(kind@, id),
{
    let id = new_uuid_v4();
    object_key(kind, id.as_str())
}

/// The ticket handed back for a created asset.
pub fn upload_ticket(asset_id: i64, object_key: String, upload_url: String) -> (r: UploadTicket)
    ensures
        r.asset_id == asset_id,
        r.object_key == object_key,
        r.upload_url == upload_url,
        r.expires_in_secs == UPLOAD_TTL_SECS,
{
    UploadTicket { asset_id, object_key, upload_url, expires_in_secs: UPLOAD_TTL_SECS }
}

/// An upload for a non-existent owner hits the foreign key: a client error.
pub fn map_create_error(err: DbFailure) -> (r: ApiError)
    ensures
        r == fk_mapped(err, ApiError::Validation("unknown_owner")),
{
    ApiError::on_fk_violation(err, ApiError::Validation("unknown_owner"))
}

/// Only the uploader may finalize or transcode their own asset.
pub fn check_owner(owner_id: i64, requester_id: i64) -> (r: Result<(), ApiError>)
    ensures
        owner_id == requester_id ==> r is Ok,
        owner_id != requester_id ==> r == Err::<(), ApiError>(ApiError::Forbidden),
{
    if owner_id != requester_id {
        return Err(ApiError::Forbidden);
    }
    Ok(())
}

/// Whether a finalized asset of `kind` is queued for transcoding (playable
/// media only).
pub fn queues_transcode(kind: &str) -> (r: bool)
    ensures
        r == (kind@ == "video"@ || kind@ == "audio"@),
{
    str_eq(kind, "video") || str_eq(kind, "audio")
}

/// Whether an asset can be transcoded now, and how: `Ok(true)` for the
/// video pipeline, `Ok(false)` for audio only.
pub fn transcode_mode(status: &str, kind: &str) -> (r: Result<bool, ApiError>)
    ensures
        status@ != "ready"@ ==> r == Err::<bool, ApiError>(ApiError::Validation("not_ready")),
        status@ == "ready"@ && kind@ == "video"@ ==> r == Ok::<bool, ApiError>(true),
        status@ == "ready"@ && kind@ == "audio"@ ==> r == Ok::<bool, ApiError>(false),
        status@ == "ready"@ && kind@ != "video"@ && kind@ != "audio"@ ==> r == Err::<bool, ApiError>(
            ApiError::Validation("not_transcodable"),
        ),
{
    proof {
        reveal_strlit("video");
        reveal_strlit("audio");
        assert("video"@[0] != "audio"@[0]);
    }
    if !str_eq(status, "ready") {
        return Err(ApiError::Validation("not_ready"));
    }
    let is_video = str_eq(kind, "video");
    if !is_video && !str_eq(kind, "audio") {
        return Err(ApiError::Validation("not_transcodable"));
    }
    Ok(is_video)
}

/// Entitlement that needs no lookup: the owner, or free content.
pub open spec fn entitled_without_lookup(viewer_id: i64, owner_id: i64, unlock_price: i64) -> bool {
    viewer_id == owner_id || unlock_price <= 0
}

/// Whether the viewer is entitled without consulting the unlock records;
/// when this is false, entitlement is exactly "has a recorded unlock".
pub fn entitlement_shortcut(viewer_id: i64, asset: &MediaAsset) -> (r: bool)
    ensures
        r == entitled_without_lookup(viewer_id, asset.owner_id, asset.unlock_price),
{
    viewer_id == asset.owner_id || asset.unlock_price <= 0
}

/// Whether the viewer may access the content: the owner, free content, or a
/// recorded unlock (`unlocked`).
pub fn is_entitled(viewer_id: i64, asset: &MediaAsset, unlocked: bool) -> (r: bool)
    ensures
        r == (entitled_without_lookup(viewer_id, asset.owner_id, asset.unlock_price) || unlocked),
{
    entitlement_shortcut(viewer_id, asset) || unlocked
}

/// Whether a presigned URL to the stored file is included in a view: only for
/// a ready asset and an entitled viewer.
pub fn shows_playback(asset: &MediaAsset, entitled: bool) -> (r: bool)
    ensures
        r == (asset.status@ == "ready"@ && entitled),
{
    str_eq(asset.status.as_str(), "ready") && entitled
}

/// The public view of an asset, carrying `playback_url` (which the caller
/// presigns only where `shows_playback` holds).
pub fn asset_view(asset: MediaAsset, playback_url: Option<String>) -> (r: MediaAssetView)
    ensures
        r.id == asset.id,
        r.owner_id == asset.owner_id,
        r.kind == asset.kind,
        r.content_type == asset.content_type,
        r.status == asset.status,
        r.size_bytes == asset.size_bytes,
        r.playback_url == playback_url,
        r.hls_ready == (asset.transcode_status@ == "done"@),
        r.unlock_price == asset.unlock_price,
{
    let hls_ready = str_eq(asset.transcode_status.as_str(), "done");
    MediaAssetView {
        id: asset.id,
        owner_id: asset.owner_id,
        kind: asset.kind,
        content_type: asset.content_type,
        status: asset.status,
        size_bytes: asset.size_bytes,
        playback_url,
        hls_ready,
        unlock_price: asset.unlock_price,
    }
}

/// The manifest key of a transcoded asset; anything not fully transcoded is
/// refused.
pub fn manifest_key(asset: &MediaAsset) -> (r: Result<&str, ApiError>)
    ensures
        match asset.hls_manifest_key {
            Some(k) => if asset.transcode_status@ == "done"@ {
                r matches Ok(key) && key@ == k@
            } else {
                r == Err::<&str, ApiError>(ApiError::Validation("not_transcoded"))
            },
            None => r == Err::<&str, ApiError>(ApiError::Validation("not_transcoded")),
        },
{
    match &asset.hls_manifest_key {
        Some(key) => {
            if str_eq(asset.transcode_status.as_str(), "done") {
                Ok(key.as_str())
            } else {
                Err(ApiError::Validation("not_transcoded"))
            }
        },
        None => Err(ApiError::Validation("not_transcoded")),
    }
}

/// The manifest is served only to an entitled viewer; everyone else gets 402.
pub fn require_entitled(entitled: bool) -> (r: Result<(), ApiError>)
    ensures
        entitled ==> r is Ok,
        !entitled ==> r == Err::<(), ApiError>(ApiError::PaymentRequired),
{
    if !entitled {
        return Err(ApiError::PaymentRequired);
    }
    Ok(())
}

} // verus!
