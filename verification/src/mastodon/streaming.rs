//! What Mastodon sends on a stream.

use super::entities::conversation::Conversation;
use super::entities::notification::Notification;
use super::entities::status::Status;
use crate::entities::conversation::Conversation as CanonicalConversation;
use crate::entities::notification::Notification as CanonicalNotification;
use crate::entities::status::Post;
use crate::streaming::codec::{EventRule, Fallback, Vocabulary, VocabularyView};
use crate::streaming::message::{Message, MessageView, PayloadKind};
use vstd::prelude::*;
use vstd::std_specs::convert::FromSpecImpl;

verus! {

/// One message of a Mastodon stream.
#[derive(Debug, Clone, PartialEq, Eq)]
pub enum StreamMessage {
    /// A status appeared on the timeline.
    Update(Status),
    /// Something happened that concerns the reader.
    Notification(Notification),
    /// A conversation changed.
    Conversation(Conversation),
    /// The status with this identifier was deleted.
    Delete(String),
    /// A status was edited.
    StatusUpdate(Status),
}

impl StreamMessage {
    /// What the message holds.
    pub open spec fn kind(self) -> PayloadKind {
        match self {
            StreamMessage::Update(_) => PayloadKind::ContentUpdate,
            StreamMessage::Notification(_) => PayloadKind::Notification,
            StreamMessage::Conversation(_) => PayloadKind::Conversation,
            StreamMessage::Delete(_) => PayloadKind::Delete,
            StreamMessage::StatusUpdate(_) => PayloadKind::StatusUpdate,
        }
    }

    /// The message for the handler that stands for this one.
    pub open spec fn canonical(self) -> MessageView {
        match self {
            StreamMessage::Update(status) => MessageView::ContentUpdate(status.post()),
            StreamMessage::Notification(notification) => MessageView::Notification(
                notification.canonical(),
            ),
            StreamMessage::Conversation(conversation) => MessageView::Conversation(
                conversation.canonical(),
            ),
            StreamMessage::Delete(id) => MessageView::Delete(id),
            StreamMessage::StatusUpdate(status) => MessageView::StatusUpdate(status.post()),
        }
    }
}

impl From<StreamMessage> for Message {
    /// Normalises a message. The result is stated over its view, because the
    /// entity in it holds new sequences.
    fn from(val: StreamMessage) -> (message: Message)
        ensures
            message@ == val.canonical(),
    {
        match val {
            StreamMessage::Update(status) => Message::ContentUpdate(Post::from(status)),
            StreamMessage::Notification(notification) => Message::Notification(
                CanonicalNotification::from(notification),
            ),
            StreamMessage::Conversation(conversation) => Message::Conversation(
                CanonicalConversation::from(conversation),
            ),
            StreamMessage::Delete(id) => Message::Delete(id),
            StreamMessage::StatusUpdate(status) => Message::StatusUpdate(Post::from(status)),
        }
    }
}

impl FromSpecImpl<StreamMessage> for Message {
    open spec fn obeys_from_spec() -> bool {
        false
    }

    open spec fn from_spec(val: StreamMessage) -> Message {
        arbitrary()
    }
}

/// The names that Mastodon gives to the units of a stream. Units with any
/// other name hold nothing for the handler.
pub open spec fn events() -> VocabularyView {
    VocabularyView {
        rules: seq![
            ("update"@, PayloadKind::ContentUpdate),
            ("notification"@, PayloadKind::Notification),
            ("conversation"@, PayloadKind::Conversation),
            ("delete"@, PayloadKind::Delete),
            ("status.update"@, PayloadKind::StatusUpdate),
        ],
        fallback: Fallback::Ignore,
    }
}

/// The table of the names that Mastodon gives to the units of a stream.
pub fn vocabulary() -> (table: Vocabulary)
    ensures
        table@ == events(),
{
    let mut rules: Vec<EventRule> = Vec::new();
    rules.push(EventRule { event: "update".to_owned(), kind: PayloadKind::ContentUpdate });
    rules.push(EventRule { event: "notification".to_owned(), kind: PayloadKind::Notification });
    rules.push(EventRule { event: "conversation".to_owned(), kind: PayloadKind::Conversation });
    rules.push(EventRule { event: "delete".to_owned(), kind: PayloadKind::Delete });
    rules.push(EventRule { event: "status.update".to_owned(), kind: PayloadKind::StatusUpdate });
    let table = Vocabulary { rules, fallback: Fallback::Ignore };
    assert(table@.rules =~= events().rules);
    table
}

} // verus!
