//! Mastodon conversations.

use super::account::{canonical_accounts, Account};
use super::status::{optional_post, Status};
use crate::entities::account::account_views;
use crate::entities::account::Account as CanonicalAccount;
use crate::entities::conversation::Conversation as CanonicalConversation;
use crate::entities::conversation::ConversationView;
use crate::entities::status::Post;
use vstd::prelude::*;
use vstd::std_specs::convert::FromSpecImpl;

verus! {

/// A conversation as Mastodon reports it.
#[derive(Debug, Clone, PartialEq, Eq)]
pub struct Conversation {
    pub id: String,
    pub accounts: Vec<Account>,
    pub last_status: Option<Status>,
    pub unread: bool,
}

impl Conversation {
    /// The canonical conversation that stands for this one: its accounts are
    /// normalised one by one, in their order, and so is its latest status.
    pub open spec fn canonical(self) -> ConversationView {
        ConversationView {
            id: self.id,
            accounts: canonical_accounts(self.accounts@),
            last_status: optional_post(self.last_status),
            unread: self.unread,
        }
    }
}

impl From<Conversation> for CanonicalConversation {
    /// Normalises a conversation. The result is stated over its view, because
    /// its sequences are new ones.
    fn from(val: Conversation) -> (conversation: CanonicalConversation)
        ensures
            conversation@ == val.canonical(),
    {
        let ghost members = val.accounts@;
        let mut accounts: Vec<CanonicalAccount> = Vec::new();
        for a in it: val.accounts
            invariant
                it.seq() == members,
                account_views(accounts@) == canonical_accounts(members.take(it.index())),
        {
            let ghost before = accounts@;
            let account = CanonicalAccount::from(a);
            accounts.push(account);
            assert(account_views(accounts@) =~= account_views(before).push(account@));
        }
        assert(members.take(members.len() as int) =~= members);
        let last_status = match val.last_status {
            Some(status) => Some(Post::from(status)),
            None => None,
        };
        CanonicalConversation { id: val.id, accounts, last_status, unread: val.unread }
    }
}

impl FromSpecImpl<Conversation> for CanonicalConversation {
    open spec fn obeys_from_spec() -> bool {
        false
    }

    open spec fn from_spec(val: Conversation) -> CanonicalConversation {
        arbitrary()
    }
}

} // verus!
