//! The HLS transcode plan: the ffmpeg options for a pipeline, which produced
//! files are kept and with what content type, and where they are uploaded.
//! Running ffmpeg and the file system work are the caller's.

use vstd::prelude::*;
use vstd::string::*;
use crate::text::{append_str, ends_with, ends_with_spec, str_eq};

verus! {

#[verifier::external_type_specification]
#[verifier::external_body]
pub struct ExIoError(std::io::Error);

/// Name of the playlist ffmpeg writes.
pub const MANIFEST_NAME: &'static str = "index.m3u8";
/// Name under which the source is written for ffmpeg (never uploaded).
pub const INPUT_NAME: &'static str = "input";
/// Segment file pattern handed to ffmpeg.
pub const SEGMENT_PATTERN: &'static str = "seg_%03d.ts";

pub const CONTENT_TYPE_M3U8: &'static str = "application/vnd.apple.mpegurl";
pub const CONTENT_TYPE_TS: &'static str = "video/mp2t";
pub const CONTENT_TYPE_OCTET: &'static str = "application/octet-stream";

/// Why a transcode failed.
#[derive(Debug)]
pub enum TranscodeError {
    Io(std::io::Error),
    Ffmpeg(String),
}

/// Trusted: the `Display` text of a `std::io::Error` (via `format!`).
/// Nothing is claimed of the text.
#[verifier::external_body]
fn io_error_text(e: &std::io::Error) -> (r: String) {
    format!("{e}")
}

impl TranscodeError {
    /// The error's message: `io error: …` or `ffmpeg failed: <stderr>`.
    pub fn message(&self) -> (r: String)
        ensures
            match self {
                TranscodeError::Ffmpeg(stderr) => r@ == "ffmpeg failed: "@ + stderr@,
                TranscodeError::Io(_) => exists|t: Seq<char>| r@ == "io error: "@ + t,
            },
    {
        let mut s = String::new();
        match self {
            TranscodeError::Io(e) => {
                append_str(&mut s, "io error: ");
                let t = io_error_text(e);
                append_str(&mut s, t.as_str());
            },
            TranscodeError::Ffmpeg(stderr) => {
                append_str(&mut s, "ffmpeg failed: ");
                append_str(&mut s, stderr.as_str());
            },
        }
        s
    }
}

/// One produced HLS file (manifest or segment), ready to upload.
#[derive(Debug, Clone)]
pub struct TranscodedFile {
    pub name: String,
    pub bytes: Vec<u8>,
    pub content_type: &'static str,
}

/// Everything a transcode produced.
#[derive(Debug, Clone)]
pub struct TranscodeOutput {
    pub files: Vec<TranscodedFile>,
    pub manifest_name: String,
}

/// The content type of a produced file, by its extension.
pub open spec fn content_type_spec(name: Seq<char>) -> Seq<char> {
    if ends_with_spec(name, ".m3u8"@) {
        CONTENT_TYPE_M3U8@
    } else if ends_with_spec(name, ".ts"@) {
        CONTENT_TYPE_TS@
    } else {
        CONTENT_TYPE_OCTET@
    }
}

/// `.m3u8` is a playlist, `.ts` a transport-stream segment, anything else
/// opaque bytes.
pub fn content_type_for(name: &str) -> (r: &'static str)
    ensures
        r@ == content_type_spec(name@),
{
    if ends_with(name, ".m3u8") {
        CONTENT_TYPE_M3U8
    } else if ends_with(name, ".ts") {
        CONTENT_TYPE_TS
    } else {
        CONTENT_TYPE_OCTET
    }
}

/// A file found in the work directory, as it will be uploaded; the raw input
/// is not an output.
pub fn produced_file(name: String, bytes: Vec<u8>) -> (r: Option<TranscodedFile>)
    ensures
        name@ == INPUT_NAME@ ==> r is None,
        name@ != INPUT_NAME@ ==> (r matches Some(f) && f.name == name && f.bytes == bytes
            && f.content_type@ == content_type_spec(name@)),
{
    if str_eq(name.as_str(), INPUT_NAME) {
        return None;
    }
    let content_type = content_type_for(name.as_str());
    Some(TranscodedFile { name, bytes, content_type })
}

/// The result of a successful run: the produced files and the playlist name.
pub fn transcode_output(files: Vec<TranscodedFile>) -> (r: TranscodeOutput)
    ensures
        r.files == files,
        r.manifest_name@ == MANIFEST_NAME@,
{
    let mut manifest_name = String::new();
    append_str(&mut manifest_name, MANIFEST_NAME);
    TranscodeOutput { files, manifest_name }
}

/// The ffmpeg options between the input and the segment pattern: the codecs
/// of the pipeline (video+audio, or audio only), then a VOD playlist of
/// 4-second segments.
pub open spec fn ffmpeg_options_spec(is_video: bool) -> Seq<Seq<char>> {
    (if is_video {
        seq!["-c:v"@, "libx264"@, "-c:a"@, "aac"@]
    } else {
        seq!["-vn"@, "-c:a"@, "aac"@]
    }) + seq!["-hls_time"@, "4"@, "-hls_playlist_type"@, "vod"@, "-hls_segment_filename"@]
}

/// The ffmpeg options for a pipeline (see `ffmpeg_options_spec`).
pub fn ffmpeg_options(is_video: bool) -> (r: Vec<&'static str>)
    ensures
        r@.map_values(|a: &'static str| a@) == ffmpeg_options_spec(is_video),
{
    let mut v: Vec<&'static str> = Vec::new();
    if is_video {
        v.push("-c:v");
        v.push("libx264");
        v.push("-c:a");
        v.push("aac");
    } else {
        v.push("-vn");
        v.push("-c:a");
        v.push("aac");
    }
    v.push("-hls_time");
    v.push("4");
    v.push("-hls_playlist_type");
    v.push("vod");
    v.push("-hls_segment_filename");
    assert(v@.map_values(|a: &'static str| a@) =~= ffmpeg_options_spec(is_video));
    v
}

} // verus!
