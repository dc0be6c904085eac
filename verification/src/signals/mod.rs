//! Content signals: the versioned write-back contract of the ingestion
//! pipeline, enforced on write.

pub mod validate;
