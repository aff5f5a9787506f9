//! The canonical conversation.

use super::account::{account_views, Account, AccountView};
use super::status::{post_view, Post, PostView};
use vstd::prelude::*;

verus! {

/// A private exchange between accounts, with its latest post.
#[derive(Debug, Clone, PartialEq, Eq)]
pub struct Conversation {
    pub id: String,
    pub accounts: Vec<Account>,
    pub last_status: Option<Post>,
    pub unread: bool,
}

/// A conversation with its texts and sequences as mathematical ones.
pub struct ConversationView {
    pub id: String,
    pub accounts: Seq<AccountView>,
    pub last_status: Option<PostView>,
    pub unread: bool,
}

impl View for Conversation {
    type V = ConversationView;

    open spec fn view(&self) -> ConversationView {
        ConversationView {
            id: self.id,
            accounts: account_views(self.accounts@),
            last_status: post_view(self.last_status),
            unread: self.unread,
        }
    }
}

} // verus!
