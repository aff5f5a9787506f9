//! Mastodon notifications.

use super::account::Account;
use super::status::{optional_post, Status};
use crate::entities::account::Account as CanonicalAccount;
use crate::entities::notification::Notification as CanonicalNotification;
use crate::entities::notification::NotificationType as CanonicalType;
use crate::entities::notification::NotificationView;
use crate::entities::status::Post;
use crate::error::Error;
use crate::text::str_eq;
use chrono::NaiveDateTime;
use vstd::prelude::*;
use vstd::std_specs::convert::FromSpecImpl;

verus! {

/// What a Mastodon notification tells of.
#[derive(Debug, Clone, Copy, PartialEq, Eq, Structural)]
pub enum NotificationType {
    Mention,
    Reblog,
    Favourite,
    Follow,
    Poll,
    FollowRequest,
    Status,
    Update,
    AdminSignup,
    AdminReport,
    Unknown,
}

impl NotificationType {
    /// The name of the kind on the wire.
    pub open spec fn name(self) -> Seq<char> {
        match self {
            NotificationType::Mention => "mention"@,
            NotificationType::Reblog => "reblog"@,
            NotificationType::Favourite => "favourite"@,
            NotificationType::Follow => "follow"@,
            NotificationType::Poll => "poll"@,
            NotificationType::FollowRequest => "follow_request"@,
            NotificationType::Status => "status"@,
            NotificationType::Update => "update"@,
            NotificationType::AdminSignup => "admin.sign_up"@,
            NotificationType::AdminReport => "admin.report"@,
            NotificationType::Unknown => "unknown"@,
        }
    }

    /// The kind that a name on the wire stands for. The known names are
    /// matched character by character, upper and lower case apart; every other
    /// text stands for `Unknown`.
    pub open spec fn parse(s: Seq<char>) -> NotificationType {
        if s == "mention"@ {
            NotificationType::Mention
        } else if s == "reblog"@ {
            NotificationType::Reblog
        } else if s == "favourite"@ {
            NotificationType::Favourite
        } else if s == "follow"@ {
            NotificationType::Follow
        } else if s == "poll"@ {
            NotificationType::Poll
        } else if s == "follow_request"@ {
            NotificationType::FollowRequest
        } else if s == "status"@ {
            NotificationType::Status
        } else if s == "update"@ {
            NotificationType::Update
        } else if s == "admin.sign_up"@ {
            NotificationType::AdminSignup
        } else if s == "admin.report"@ {
            NotificationType::AdminReport
        } else {
            NotificationType::Unknown
        }
    }

    /// The canonical kind that stands for this one. A poll that the reader
    /// took part in or wrote is reported when it closes.
    pub open spec fn canonical(self) -> CanonicalType {
        match self {
            NotificationType::Mention => CanonicalType::Mention,
            NotificationType::Reblog => CanonicalType::Reblog,
            NotificationType::Favourite => CanonicalType::Favourite,
            NotificationType::Follow => CanonicalType::Follow,
            NotificationType::Poll => CanonicalType::PollExpired,
            NotificationType::FollowRequest => CanonicalType::FollowRequest,
            NotificationType::Status => CanonicalType::Status,
            NotificationType::Update => CanonicalType::Update,
            NotificationType::AdminSignup => CanonicalType::AdminSignup,
            NotificationType::AdminReport => CanonicalType::AdminReport,
            NotificationType::Unknown => CanonicalType::Unknown,
        }
    }

    /// The name of the kind on the wire, as a string.
    pub fn to_string(&self) -> (text: String)
        ensures
            text@ == self.name(),
    {
        match self {
            NotificationType::Mention => "mention".to_owned(),
            NotificationType::Reblog => "reblog".to_owned(),
            NotificationType::Favourite => "favourite".to_owned(),
            NotificationType::Follow => "follow".to_owned(),
            NotificationType::Poll => "poll".to_owned(),
            NotificationType::FollowRequest => "follow_request".to_owned(),
            NotificationType::Status => "status".to_owned(),
            NotificationType::Update => "update".to_owned(),
            NotificationType::AdminSignup => "admin.sign_up".to_owned(),
            NotificationType::AdminReport => "admin.report".to_owned(),
            NotificationType::Unknown => "unknown".to_owned(),
        }
    }

    /// Reads the kind from its name on the wire. It never fails: a text that
    /// is none of the known names gives `Unknown`.
    pub fn from_str(s: &str) -> (kind: Result<NotificationType, Error>)
        ensures
            kind == Ok::<NotificationType, Error>(NotificationType::parse(s@)),
    {
        if str_eq(s, "mention") {
            Ok(NotificationType::Mention)
        } else if str_eq(s, "reblog") {
            Ok(NotificationType::Reblog)
        } else if str_eq(s, "favourite") {
            Ok(NotificationType::Favourite)
        } else if str_eq(s, "follow") {
            Ok(NotificationType::Follow)
        } else if str_eq(s, "poll") {
            Ok(NotificationType::Poll)
        } else if str_eq(s, "follow_request") {
            Ok(NotificationType::FollowRequest)
        } else if str_eq(s, "status") {
            Ok(NotificationType::Status)
        } else if str_eq(s, "update") {
            Ok(NotificationType::Update)
        } else if str_eq(s, "admin.sign_up") {
            Ok(NotificationType::AdminSignup)
        } else if str_eq(s, "admin.report") {
            Ok(NotificationType::AdminReport)
        } else {
            Ok(NotificationType::Unknown)
        }
    }
}

/// Writing a kind and reading it back gives the kind.
pub proof fn law_a_written_kind_is_read_back(kind: NotificationType)
    ensures
        NotificationType::parse(kind.name()) == kind,
{
    reveal_strlit("mention");
    reveal_strlit("reblog");
    reveal_strlit("favourite");
    reveal_strlit("follow");
    reveal_strlit("poll");
    reveal_strlit("follow_request");
    reveal_strlit("status");
    reveal_strlit("update");
    reveal_strlit("admin.sign_up");
    reveal_strlit("admin.report");
    reveal_strlit("unknown");
    assert("mention"@.len() == 7 && "mention"@[0] == 'm');
    assert("reblog"@.len() == 6 && "reblog"@[0] == 'r');
    assert("favourite"@.len() == 9);
    assert("follow"@.len() == 6 && "follow"@[0] == 'f');
    assert("poll"@.len() == 4);
    assert("follow_request"@.len() == 14);
    assert("status"@.len() == 6 && "status"@[0] == 's');
    assert("update"@.len() == 6 && "update"@[0] == 'u');
    assert("admin.sign_up"@.len() == 13);
    assert("admin.report"@.len() == 12);
    assert("unknown"@.len() == 7 && "unknown"@[0] == 'u');
}

/// Reading never fails, and only the known names are read as a kind of their
/// own: a text that is read as anything but `Unknown` is the name of what it
/// is read as. So every other text, whatever it holds, is read as `Unknown`.
pub proof fn law_every_other_text_is_unknown(s: Seq<char>)
    ensures
        NotificationType::parse(s) != NotificationType::Unknown ==> s == NotificationType::parse(
            s,
        ).name(),
{
}

/// No two kinds share a name.
pub proof fn law_kinds_differ_in_name(a: NotificationType, b: NotificationType)
    ensures
        a.name() == b.name() ==> a == b,
{
    law_a_written_kind_is_read_back(a);
    law_a_written_kind_is_read_back(b);
}

/// Only what Mastodon itself does not know becomes unknown: every kind but
/// `Unknown` has a canonical kind of its own, and no two share one.
pub proof fn law_every_kind_has_its_canonical_kind(a: NotificationType, b: NotificationType)
    ensures
        a.canonical() is Unknown <==> a is Unknown,
        a.canonical() == b.canonical() ==> a == b,
{
}

impl From<NotificationType> for CanonicalType {
    fn from(val: NotificationType) -> (kind: CanonicalType)
        ensures
            kind == val.canonical(),
    {
        match val {
            NotificationType::Mention => CanonicalType::Mention,
            NotificationType::Reblog => CanonicalType::Reblog,
            NotificationType::Favourite => CanonicalType::Favourite,
            NotificationType::Follow => CanonicalType::Follow,
            NotificationType::Poll => CanonicalType::PollExpired,
            NotificationType::FollowRequest => CanonicalType::FollowRequest,
            NotificationType::Status => CanonicalType::Status,
            NotificationType::Update => CanonicalType::Update,
            NotificationType::AdminSignup => CanonicalType::AdminSignup,
            NotificationType::AdminReport => CanonicalType::AdminReport,
            NotificationType::Unknown => CanonicalType::Unknown,
        }
    }
}

impl FromSpecImpl<NotificationType> for CanonicalType {
    open spec fn obeys_from_spec() -> bool {
        true
    }

    open spec fn from_spec(val: NotificationType) -> CanonicalType {
        val.canonical()
    }
}

/// A notification as Mastodon reports it.
#[derive(Debug, Clone, PartialEq, Eq)]
pub struct Notification {
    pub id: String,
    pub created_at: NaiveDateTime,
    pub kind: NotificationType,
    pub account: Option<Account>,
    pub status: Option<Status>,
}

impl Notification {
    /// The canonical notification that stands for this one. It tells of no
    /// reaction, which Mastodon does not know.
    pub open spec fn canonical(self) -> NotificationView {
        NotificationView {
            id: self.id,
            created_at: self.created_at,
            kind: self.kind.canonical(),
            account: match self.account {
                Some(account) => Some(account.canonical()),
                None => None,
            },
            status: optional_post(self.status),
            reaction: None,
        }
    }
}

impl From<Notification> for CanonicalNotification {
    /// Normalises a notification. The result is stated over its view, because
    /// the post in it holds new sequences.
    fn from(val: Notification) -> (notification: CanonicalNotification)
        ensures
            notification@ == val.canonical(),
    {
        let account = match val.account {
            Some(account) => Some(CanonicalAccount::from(account)),
            None => None,
        };
        let status = match val.status {
            Some(status) => Some(Post::from(status)),
            None => None,
        };
        CanonicalNotification {
            id: val.id,
            created_at: val.created_at,
            kind: CanonicalType::from(val.kind),
            account,
            status,
            reaction: None,
        }
    }
}

impl FromSpecImpl<Notification> for CanonicalNotification {
    open spec fn obeys_from_spec() -> bool {
        false
    }

    open spec fn from_spec(val: Notification) -> CanonicalNotification {
        arbitrary()
    }
}

} // verus!
