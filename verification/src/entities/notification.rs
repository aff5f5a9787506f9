//! The canonical notification.

use super::account::{Account, AccountView};
use super::reaction::Reaction;
use super::status::{post_view, Post, PostView};
use chrono::NaiveDateTime;
use vstd::prelude::*;

verus! {

/// What a notification tells of. Whatever a backend reports that has no
/// counterpart here becomes `Unknown`.
#[derive(Debug, Clone, Copy, PartialEq, Eq, Structural)]
pub enum NotificationType {
    Follow,
    FollowRequest,
    Mention,
    Reblog,
    Favourite,
    PollVote,
    PollExpired,
    Status,
    Update,
    Reaction,
    Move,
    AdminSignup,
    AdminReport,
    GroupInvited,
    App,
    Unknown,
}

/// A notification: something that happened and concerns the reader.
#[derive(Debug, Clone, PartialEq, Eq)]
pub struct Notification {
    pub id: String,
    pub created_at: NaiveDateTime,
    pub kind: NotificationType,
    /// Who caused it, where the backend says so.
    pub account: Option<Account>,
    /// The post that it is about, where there is one.
    pub status: Option<Post>,
    /// The reaction that was given, where it tells of one.
    pub reaction: Option<Reaction>,
}

/// A notification with its texts and sequences as mathematical ones.
pub struct NotificationView {
    pub id: String,
    pub created_at: NaiveDateTime,
    pub kind: NotificationType,
    pub account: Option<AccountView>,
    pub status: Option<PostView>,
    pub reaction: Option<Reaction>,
}

impl View for Notification {
    type V = NotificationView;

    open spec fn view(&self) -> NotificationView {
        NotificationView {
            id: self.id,
            created_at: self.created_at,
            kind: self.kind,
            account: match self.account {
                Some(account) => Some(account@),
                None => None,
            },
            status: post_view(self.status),
            reaction: self.reaction,
        }
    }
}

} // verus!
