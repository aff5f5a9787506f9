//! A client-side model of several social-networking backends behind one
//! interface: the entities of each backend are normalised into one canonical
//! model, and the decisions of a streaming connection are taken by a state
//! machine whose steps are stated and proved.

pub mod client;
pub mod entities;
pub mod error;
pub mod firefish;
pub mod mastodon;
pub mod oauth;
pub mod pixelfed;
pub mod streaming;
pub mod text;
pub mod time;
