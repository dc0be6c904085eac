//! Job queue keys. The transport (Redis lists, with a processing list for
//! reserved-but-unacknowledged jobs) is the caller's; the naming is here.

use vstd::prelude::*;
use vstd::string::*;
use crate::text::append_str;

verus! {

/// The transcode job list.
pub const TRANSCODE_QUEUE_KEY: &'static str = "gamma:transcode";
/// The ingestion job list.
pub const INGESTION_QUEUE_KEY: &'static str = "gamma:ingestion";

/// The processing list that holds the reserved jobs of queue `key`.
pub fn processing_key(key: &str) -> (r: String)
    ensures
        r@ == key@ + ":processing"@,
{
    let mut s = String::new();
    append_str(&mut s, key);
    append_str(&mut s, ":processing");
    s
}

} // verus!
