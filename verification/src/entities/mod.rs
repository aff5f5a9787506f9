//! The canonical entities, which every backend's entities are normalised into.

pub mod account;
pub mod attachment;
pub mod conversation;
pub mod notification;
pub mod reaction;
pub mod status;
