//! The entities as Mastodon reports them, and their normalisation.

pub mod account;
pub mod attachment;
pub mod conversation;
pub mod notification;
pub mod status;
