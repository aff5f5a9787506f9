//! The Pixelfed backend.

pub mod oauth;
pub mod streaming;
