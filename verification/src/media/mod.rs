//! Media: upload checks, the paid-unlock split and its ledger legs, playback
//! entitlement, HLS manifest rewriting and the transcode output plan.

pub mod asset;
pub mod manifest;
pub mod transcode;
pub mod unlock;
