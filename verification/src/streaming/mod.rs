//! Live updates: what a backend sends, what the caller's handler receives,
//! and the decisions of the connection in between.

pub mod codec;
pub mod connection;
pub mod dispatcher;
pub mod laws;
pub mod message;
