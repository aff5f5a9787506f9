//! The Firefish backend.

pub mod entities;
pub mod streaming;
