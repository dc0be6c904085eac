//! The feed: the opaque pagination cursor and the ranked-page selection of the
//! cold-start ranker (scoring itself is floating point and happens outside).

pub mod cursor;
pub mod rank;
pub mod page;
