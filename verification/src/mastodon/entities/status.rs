//! Mastodon statuses.

use super::account::Account;
use super::attachment::Attachment;
use crate::entities::account::Account as CanonicalAccount;
use crate::entities::attachment::Attachment as CanonicalAttachment;
use crate::entities::reaction::Reaction;
use crate::entities::status::{Post, PostView, Visibility};
use chrono::NaiveDateTime;
use vstd::prelude::*;
use vstd::std_specs::convert::FromSpecImpl;

verus! {

/// Who may see a status.
#[derive(Debug, Clone, Copy, PartialEq, Eq, Structural)]
pub enum StatusVisibility {
    Public,
    Unlisted,
    Private,
    Direct,
}

impl StatusVisibility {
    /// The canonical visibility that stands for this one.
    pub open spec fn canonical(self) -> Visibility {
        match self {
            StatusVisibility::Public => Visibility::Public,
            StatusVisibility::Unlisted => Visibility::Unlisted,
            StatusVisibility::Private => Visibility::Private,
            StatusVisibility::Direct => Visibility::Direct,
        }
    }
}

impl From<StatusVisibility> for Visibility {
    fn from(val: StatusVisibility) -> (visibility: Visibility)
        ensures
            visibility == val.canonical(),
    {
        match val {
            StatusVisibility::Public => Visibility::Public,
            StatusVisibility::Unlisted => Visibility::Unlisted,
            StatusVisibility::Private => Visibility::Private,
            StatusVisibility::Direct => Visibility::Direct,
        }
    }
}

impl FromSpecImpl<StatusVisibility> for Visibility {
    open spec fn obeys_from_spec() -> bool {
        true
    }

    open spec fn from_spec(val: StatusVisibility) -> Visibility {
        val.canonical()
    }
}

/// A status as Mastodon reports it.
#[derive(Debug, Clone, PartialEq, Eq)]
pub struct Status {
    pub id: String,
    pub account: Account,
    pub content: String,
    pub created_at: NaiveDateTime,
    pub media_attachments: Vec<Attachment>,
    pub visibility: StatusVisibility,
}

/// The canonical attachments that stand for a sequence of attachments, in its
/// order.
pub open spec fn canonical_attachments(attachments: Seq<Attachment>) -> Seq<CanonicalAttachment> {
    attachments.map_values(|a: Attachment| a.canonical())
}

impl Status {
    /// The canonical post that stands for this status: its attachments are
    /// normalised one by one, in their order; it has no reactions, which
    /// Mastodon does not know.
    pub open spec fn post(self) -> PostView {
        PostView {
            id: self.id,
            account: self.account.canonical(),
            content: self.content@,
            created_at: self.created_at,
            media_attachments: canonical_attachments(self.media_attachments@),
            reactions: Seq::empty(),
            visibility: self.visibility.canonical(),
        }
    }
}

/// The canonical post that stands for an optional status.
pub open spec fn optional_post(status: Option<Status>) -> Option<PostView> {
    match status {
        Some(s) => Some(s.post()),
        None => None,
    }
}

impl From<Status> for Post {
    /// Normalises a status. The result is stated over its view, because its
    /// sequences are new ones.
    fn from(val: Status) -> (post: Post)
        ensures
            post@ == val.post(),
    {
        let ghost attached = val.media_attachments@;
        let mut media_attachments: Vec<CanonicalAttachment> = Vec::new();
        for a in it: val.media_attachments
            invariant
                it.seq() == attached,
                media_attachments@ == canonical_attachments(attached.take(it.index())),
        {
            media_attachments.push(CanonicalAttachment::from(a));
        }
        assert(attached.take(attached.len() as int) =~= attached);
        let reactions: Vec<Reaction> = Vec::new();
        Post {
            id: val.id,
            account: CanonicalAccount::from(val.account),
            content: val.content,
            created_at: val.created_at,
            media_attachments,
            reactions,
            visibility: Visibility::from(val.visibility),
        }
    }
}

impl FromSpecImpl<Status> for Post {
    open spec fn obeys_from_spec() -> bool {
        false
    }

    open spec fn from_spec(val: Status) -> Post {
        arbitrary()
    }
}

} // verus!
