//! The canonical post.

use super::account::{Account, AccountView};
use super::attachment::Attachment;
use super::reaction::Reaction;
use chrono::NaiveDateTime;
use vstd::prelude::*;

verus! {

/// Who may see a post.
#[derive(Debug, Clone, Copy, PartialEq, Eq, Structural)]
pub enum Visibility {
    Public,
    Unlisted,
    Private,
    Direct,
}

/// A post. Its attachments are in the order in which they were attached; its
/// reactions are keyed by name where the backend's were.
#[derive(Debug, Clone, PartialEq, Eq)]
pub struct Post {
    pub id: String,
    pub account: Account,
    pub content: String,
    pub created_at: NaiveDateTime,
    pub media_attachments: Vec<Attachment>,
    pub reactions: Vec<Reaction>,
    pub visibility: Visibility,
}

/// A post with its texts and sequences as mathematical ones.
pub struct PostView {
    pub id: String,
    pub account: AccountView,
    pub content: Seq<char>,
    pub created_at: NaiveDateTime,
    pub media_attachments: Seq<Attachment>,
    pub reactions: Seq<Reaction>,
    pub visibility: Visibility,
}

impl View for Post {
    type V = PostView;

    open spec fn view(&self) -> PostView {
        PostView {
            id: self.id,
            account: self.account@,
            content: self.content@,
            created_at: self.created_at,
            media_attachments: self.media_attachments@,
            reactions: self.reactions@,
            visibility: self.visibility,
        }
    }
}

/// The view of an optional post.
pub open spec fn post_view(post: Option<Post>) -> Option<PostView> {
    match post {
        Some(p) => Some(p@),
        None => None,
    }
}

} // verus!
