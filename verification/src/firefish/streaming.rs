//! What Firefish sends on a stream.

use super::entities::note::Note;
use super::entities::notification::Notification;
use crate::entities::notification::Notification as CanonicalNotification;
use crate::entities::status::Post;
use crate::streaming::codec::{EventRule, Fallback, Vocabulary, VocabularyView};
use crate::streaming::message::{Message, MessageView, PayloadKind};
use vstd::prelude::*;
use vstd::std_specs::convert::FromSpecImpl;

verus! {

/// One message of a Firefish channel.
#[derive(Debug, Clone, PartialEq, Eq)]
pub enum ChannelMessage {
    /// A note appeared on the timeline.
    Note(Note),
    /// Something happened that concerns the reader.
    Notification(Notification),
}

impl ChannelMessage {
    /// What the message holds.
    pub open spec fn kind(self) -> PayloadKind {
        match self {
            ChannelMessage::Note(_) => PayloadKind::ContentUpdate,
            ChannelMessage::Notification(_) => PayloadKind::Notification,
        }
    }

    /// The message for the handler that stands for this one.
    pub open spec fn canonical(self) -> MessageView {
        match self {
            ChannelMessage::Note(note) => MessageView::ContentUpdate(note.post()),
            ChannelMessage::Notification(notification) => MessageView::Notification(
                notification.canonical(),
            ),
        }
    }
}

impl From<ChannelMessage> for Message {
    /// Normalises a message. The result is stated over its view, because the
    /// entity in it holds new sequences.
    fn from(val: ChannelMessage) -> (message: Message)
        ensures
            message@ == val.canonical(),
    {
        match val {
            ChannelMessage::Note(note) => Message::ContentUpdate(Post::from(note)),
            ChannelMessage::Notification(notification) => Message::Notification(
                CanonicalNotification::from(notification),
            ),
        }
    }
}

impl FromSpecImpl<ChannelMessage> for Message {
    open spec fn obeys_from_spec() -> bool {
        false
    }

    open spec fn from_spec(val: ChannelMessage) -> Message {
        arbitrary()
    }
}

/// The names that Firefish gives to the messages of a channel. Messages with
/// any other name hold nothing for the handler.
pub open spec fn events() -> VocabularyView {
    VocabularyView {
        rules: seq![
            ("note"@, PayloadKind::ContentUpdate),
            ("notification"@, PayloadKind::Notification),
        ],
        fallback: Fallback::Ignore,
    }
}

/// The table of the names that Firefish gives to the messages of a channel.
pub fn vocabulary() -> (table: Vocabulary)
    ensures
        table@ == events(),
{
    let mut rules: Vec<EventRule> = Vec::new();
    rules.push(EventRule { event: "note".to_owned(), kind: PayloadKind::ContentUpdate });
    rules.push(EventRule { event: "notification".to_owned(), kind: PayloadKind::Notification });
    let table = Vocabulary { rules, fallback: Fallback::Ignore };
    assert(table@.rules =~= events().rules);
    table
}

} // verus!
