//! Firefish notifications.

use super::note::Note;
use super::reaction::{map_reaction, ReactionCount};
use super::user::User;
use crate::entities::account::Account;
use crate::entities::notification::NotificationType as CanonicalType;
use crate::entities::notification::Notification as CanonicalNotification;
use crate::entities::notification::NotificationView;
use crate::entities::reaction::Reaction;
use crate::entities::status::Post;
use chrono::NaiveDateTime;
use vstd::prelude::*;
use vstd::std_specs::convert::FromSpecImpl;

verus! {

/// A notification as Firefish reports it.
#[derive(Debug, Clone, PartialEq, Eq)]
pub struct Notification {
    pub id: String,
    pub created_at: NaiveDateTime,
    pub kind: NotificationType,
    pub user: Option<User>,
    pub note: Option<Note>,
    /// The name of the emoji that was given, where the notification tells of
    /// a reaction. Firefish reports no more of the reaction than this.
    pub reaction: Option<String>,
}

/// What a Firefish notification tells of.
#[derive(Debug, Clone, Copy, PartialEq, Eq, Structural)]
pub enum NotificationType {
    Follow,
    Mention,
    Reply,
    Renote,
    Quote,
    Reaction,
    PollVote,
    PollEnded,
    ReceiveFollowRequest,
    FollowRequestAccepted,
    GroupInvited,
    App,
    Unknown,
}

impl NotificationType {
    /// The name of the kind on the wire.
    pub open spec fn name(self) -> Seq<char> {
        match self {
            NotificationType::Follow => "follow"@,
            NotificationType::Mention => "mention"@,
            NotificationType::Reply => "reply"@,
            NotificationType::Renote => "renote"@,
            NotificationType::Quote => "quote"@,
            NotificationType::Reaction => "reaction"@,
            NotificationType::PollVote => "pollVote"@,
            NotificationType::PollEnded => "pollEnded"@,
            NotificationType::ReceiveFollowRequest => "receiveFollowRequest"@,
            NotificationType::FollowRequestAccepted => "followRequestAccepted"@,
            NotificationType::GroupInvited => "groupInvited"@,
            NotificationType::App => "app"@,
            NotificationType::Unknown => "unknown"@,
        }
    }

    /// The canonical kind that this kind is normalised into. Several kinds
    /// share one canonical kind: a reply counts as a mention, a quote as a
    /// reblog, an accepted follow request as a follow.
    pub open spec fn canonical(self) -> CanonicalType {
        match self {
            NotificationType::Follow => CanonicalType::Follow,
            NotificationType::Mention => CanonicalType::Mention,
            NotificationType::Reply => CanonicalType::Mention,
            NotificationType::Renote => CanonicalType::Reblog,
            NotificationType::Quote => CanonicalType::Reblog,
            NotificationType::Reaction => CanonicalType::Reaction,
            NotificationType::PollVote => CanonicalType::PollVote,
            NotificationType::PollEnded => CanonicalType::PollExpired,
            NotificationType::ReceiveFollowRequest => CanonicalType::FollowRequest,
            NotificationType::FollowRequestAccepted => CanonicalType::Follow,
            NotificationType::GroupInvited => CanonicalType::GroupInvited,
            NotificationType::App => CanonicalType::App,
            NotificationType::Unknown => CanonicalType::Unknown,
        }
    }

    /// The Firefish kind that stands for a canonical kind. Canonical kinds
    /// that Firefish does not know become `Unknown`.
    pub open spec fn of_canonical(kind: CanonicalType) -> NotificationType {
        match kind {
            CanonicalType::Follow => NotificationType::Follow,
            CanonicalType::Mention => NotificationType::Mention,
            CanonicalType::Reblog => NotificationType::Renote,
            CanonicalType::Reaction => NotificationType::Reaction,
            CanonicalType::PollVote => NotificationType::PollVote,
            CanonicalType::PollExpired => NotificationType::PollEnded,
            CanonicalType::FollowRequest => NotificationType::ReceiveFollowRequest,
            CanonicalType::GroupInvited => NotificationType::GroupInvited,
            CanonicalType::App => NotificationType::App,
            CanonicalType::AdminReport => NotificationType::Unknown,
            CanonicalType::AdminSignup => NotificationType::Unknown,
            CanonicalType::Favourite => NotificationType::Unknown,
            CanonicalType::Move => NotificationType::Unknown,
            CanonicalType::Status => NotificationType::Unknown,
            CanonicalType::Unknown => NotificationType::Unknown,
            CanonicalType::Update => NotificationType::Unknown,
        }
    }

    /// The name of the kind on the wire, as a string.
    pub fn to_string(&self) -> (text: String)
        ensures
            text@ == self.name(),
    {
        match self {
            NotificationType::Follow => "follow".to_owned(),
            NotificationType::Mention => "mention".to_owned(),
            NotificationType::Reply => "reply".to_owned(),
            NotificationType::Renote => "renote".to_owned(),
            NotificationType::Quote => "quote".to_owned(),
            NotificationType::Reaction => "reaction".to_owned(),
            NotificationType::PollVote => "pollVote".to_owned(),
            NotificationType::PollEnded => "pollEnded".to_owned(),
            NotificationType::ReceiveFollowRequest => "receiveFollowRequest".to_owned(),
            NotificationType::FollowRequestAccepted => "followRequestAccepted".to_owned(),
            NotificationType::GroupInvited => "groupInvited".to_owned(),
            NotificationType::App => "app".to_owned(),
            NotificationType::Unknown => "unknown".to_owned(),
        }
    }
}

/// The way there and back is not the way back and there. A canonical kind
/// that Firefish knows comes back unchanged from Firefish; one that Firefish
/// does not know comes back as `Unknown`.
pub proof fn law_canonical_kinds_come_back(kind: CanonicalType)
    ensures
        NotificationType::of_canonical(kind) != NotificationType::Unknown
            ==> NotificationType::of_canonical(kind).canonical() == kind,
        NotificationType::of_canonical(kind) == NotificationType::Unknown
            ==> NotificationType::of_canonical(kind).canonical() == CanonicalType::Unknown,
{
}

/// A kind of Firefish comes back unchanged from the canonical kinds unless it
/// shares its canonical kind with another: a reply comes back as a mention, a
/// quote as a renote, an accepted follow request as a follow.
pub proof fn law_three_kinds_do_not_come_back(kind: NotificationType)
    ensures
        NotificationType::of_canonical(kind.canonical()) == kind <==> !(kind is Reply || kind
            is Quote || kind is FollowRequestAccepted),
        kind is Reply ==> NotificationType::of_canonical(kind.canonical())
            == NotificationType::Mention,
        kind is Quote ==> NotificationType::of_canonical(kind.canonical())
            == NotificationType::Renote,
        kind is FollowRequestAccepted ==> NotificationType::of_canonical(kind.canonical())
            == NotificationType::Follow,
{
}

/// Only what Firefish itself does not know becomes unknown.
pub proof fn law_only_unknown_becomes_unknown(kind: NotificationType)
    ensures
        kind.canonical() is Unknown <==> kind is Unknown,
{
}

/// No two kinds share a name.
pub proof fn law_kinds_differ_in_name(a: NotificationType, b: NotificationType)
    ensures
        a.name() == b.name() ==> a == b,
{
    reveal_strlit("follow");
    reveal_strlit("mention");
    reveal_strlit("reply");
    reveal_strlit("renote");
    reveal_strlit("quote");
    reveal_strlit("reaction");
    reveal_strlit("pollVote");
    reveal_strlit("pollEnded");
    reveal_strlit("receiveFollowRequest");
    reveal_strlit("followRequestAccepted");
    reveal_strlit("groupInvited");
    reveal_strlit("app");
    reveal_strlit("unknown");
    assert("follow"@.len() == 6 && "follow"@[0] == 'f');
    assert("mention"@.len() == 7 && "mention"@[0] == 'm');
    assert("reply"@.len() == 5 && "reply"@[0] == 'r');
    assert("renote"@.len() == 6 && "renote"@[0] == 'r');
    assert("quote"@.len() == 5 && "quote"@[0] == 'q');
    assert("reaction"@.len() == 8 && "reaction"@[0] == 'r');
    assert("pollVote"@.len() == 8 && "pollVote"@[0] == 'p');
    assert("pollEnded"@.len() == 9);
    assert("receiveFollowRequest"@.len() == 20);
    assert("followRequestAccepted"@.len() == 21);
    assert("groupInvited"@.len() == 12);
    assert("app"@.len() == 3);
    assert("unknown"@.len() == 7 && "unknown"@[0] == 'u');
}

impl From<CanonicalType> for NotificationType {
    fn from(value: CanonicalType) -> (kind: Self)
        ensures
            kind == NotificationType::of_canonical(value),
    {
        match value {
            CanonicalType::Follow => NotificationType::Follow,
            CanonicalType::Mention => NotificationType::Mention,
            CanonicalType::Reblog => NotificationType::Renote,
            CanonicalType::Reaction => NotificationType::Reaction,
            CanonicalType::PollVote => NotificationType::PollVote,
            CanonicalType::PollExpired => NotificationType::PollEnded,
            CanonicalType::FollowRequest => NotificationType::ReceiveFollowRequest,
            CanonicalType::GroupInvited => NotificationType::GroupInvited,
            CanonicalType::App => NotificationType::App,
            CanonicalType::AdminReport => NotificationType::Unknown,
            CanonicalType::AdminSignup => NotificationType::Unknown,
            CanonicalType::Favourite => NotificationType::Unknown,
            CanonicalType::Move => NotificationType::Unknown,
            CanonicalType::Status => NotificationType::Unknown,
            CanonicalType::Unknown => NotificationType::Unknown,
            CanonicalType::Update => NotificationType::Unknown,
        }
    }
}

impl FromSpecImpl<CanonicalType> for NotificationType {
    open spec fn obeys_from_spec() -> bool {
        true
    }

    open spec fn from_spec(value: CanonicalType) -> NotificationType {
        NotificationType::of_canonical(value)
    }
}

impl From<NotificationType> for CanonicalType {
    fn from(val: NotificationType) -> (kind: Self)
        ensures
            kind == val.canonical(),
    {
        match val {
            NotificationType::Follow => CanonicalType::Follow,
            NotificationType::Mention => CanonicalType::Mention,
            NotificationType::Reply => CanonicalType::Mention,
            NotificationType::Renote => CanonicalType::Reblog,
            NotificationType::Quote => CanonicalType::Reblog,
            NotificationType::Reaction => CanonicalType::Reaction,
            NotificationType::PollVote => CanonicalType::PollVote,
            NotificationType::PollEnded => CanonicalType::PollExpired,
            NotificationType::ReceiveFollowRequest => CanonicalType::FollowRequest,
            NotificationType::FollowRequestAccepted => CanonicalType::Follow,
            NotificationType::GroupInvited => CanonicalType::GroupInvited,
            NotificationType::App => CanonicalType::App,
            NotificationType::Unknown => CanonicalType::Unknown,
        }
    }
}

impl FromSpecImpl<NotificationType> for CanonicalType {
    open spec fn obeys_from_spec() -> bool {
        true
    }

    open spec fn from_spec(val: NotificationType) -> CanonicalType {
        val.canonical()
    }
}

impl Notification {
    /// The reaction of the canonical notification. Firefish names a single
    /// emoji, so the reaction is made up from it: given once, not by the
    /// reader, by nobody in particular.
    pub open spec fn synthesized_reaction(self) -> Option<Reaction> {
        match self.reaction {
            Some(name) => Some(Reaction { count: 1, me: false, name, accounts: None }),
            None => None,
        }
    }

    /// The canonical notification that stands for this one.
    pub open spec fn canonical(self) -> NotificationView {
        NotificationView {
            id: self.id,
            created_at: self.created_at,
            kind: self.kind.canonical(),
            account: match self.user {
                Some(user) => Some(user.account()),
                None => None,
            },
            status: match self.note {
                Some(note) => Some(note.post()),
                None => None,
            },
            reaction: self.synthesized_reaction(),
        }
    }
}

impl From<Notification> for CanonicalNotification {
    /// Normalises a notification. The result is stated over its view, because
    /// the post in it holds new sequences.
    fn from(val: Notification) -> (notification: CanonicalNotification)
        ensures
            notification@ == val.canonical(),
    {
        let mut reactions = match val.reaction {
            Some(reaction) => {
                let mut counts: Vec<ReactionCount> = Vec::new();
                counts.push(ReactionCount { name: reaction, count: 1 });
                map_reaction(counts, None)
            },
            None => Vec::new(),
        };
        let reaction = if reactions.len() > 0 {
            Some(reactions.remove(0))
        } else {
            None
        };
        let account = match val.user {
            Some(user) => Some(Account::from(user)),
            None => None,
        };
        let status = match val.note {
            Some(note) => Some(Post::from(note)),
            None => None,
        };
        CanonicalNotification {
            id: val.id,
            created_at: val.created_at,
            kind: CanonicalType::from(val.kind),
            account,
            status,
            reaction,
        }
    }
}

impl FromSpecImpl<Notification> for CanonicalNotification {
    open spec fn obeys_from_spec() -> bool {
        false
    }

    open spec fn from_spec(val: Notification) -> CanonicalNotification {
        arbitrary()
    }
}

} // verus!
