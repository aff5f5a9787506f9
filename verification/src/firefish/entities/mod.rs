//! The entities as Firefish reports them, and their normalisation.

pub mod note;
pub mod notification;
pub mod reaction;
pub mod user;
