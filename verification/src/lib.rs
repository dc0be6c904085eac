//! Core API library: the verified decision logic of the social/gem backend —
//! authentication policy, feed cursors and ranked pages, posts, comments,
//! follows and interactions, media uploads, unlock pricing and HLS manifests,
//! private-area configuration, content-signal checks, epoch settlement steps
//! and rate-limit configuration.

pub mod auth;
pub mod codec;
pub mod comments;
pub mod config;
pub mod error;
pub mod feed;
pub mod follows;
pub mod gems;
pub mod interactions;
pub mod mailer;
pub mod media;
pub mod posts;
pub mod private_area;
pub mod queue;
pub mod rate_limit;
pub mod signals;
pub mod text;
