//! The Mastodon backend.

pub mod entities;
pub mod streaming;
