//! The messages of a stream, as the caller's handler receives them.

use crate::entities::conversation::{Conversation, ConversationView};
use crate::entities::notification::{Notification, NotificationView};
use crate::entities::status::{Post, PostView};
use vstd::prelude::*;

verus! {

/// One message for the caller's handler.
#[derive(Debug, Clone, PartialEq, Eq)]
pub enum Message {
    /// A post appeared.
    ContentUpdate(Post),
    /// Something happened that concerns the reader.
    Notification(Notification),
    /// A conversation changed.
    Conversation(Conversation),
    /// The post with this identifier was deleted.
    Delete(String),
    /// A post was edited.
    StatusUpdate(Post),
    /// The backend showed that it is alive.
    Heartbeat,
}

/// A message with its texts and sequences as mathematical ones.
pub enum MessageView {
    ContentUpdate(PostView),
    Notification(NotificationView),
    Conversation(ConversationView),
    Delete(String),
    StatusUpdate(PostView),
    Heartbeat,
}

impl View for Message {
    type V = MessageView;

    open spec fn view(&self) -> MessageView {
        match *self {
            Message::ContentUpdate(post) => MessageView::ContentUpdate(post@),
            Message::Notification(notification) => MessageView::Notification(notification@),
            Message::Conversation(conversation) => MessageView::Conversation(conversation@),
            Message::Delete(id) => MessageView::Delete(id),
            Message::StatusUpdate(post) => MessageView::StatusUpdate(post@),
            Message::Heartbeat => MessageView::Heartbeat,
        }
    }
}

/// What a payload holds.
#[derive(Debug, Clone, Copy, PartialEq, Eq, Structural)]
pub enum PayloadKind {
    ContentUpdate,
    Notification,
    Conversation,
    Delete,
    StatusUpdate,
}

impl MessageView {
    /// What the message holds; a heartbeat holds nothing.
    pub open spec fn kind(self) -> Option<PayloadKind> {
        match self {
            MessageView::ContentUpdate(_) => Some(PayloadKind::ContentUpdate),
            MessageView::Notification(_) => Some(PayloadKind::Notification),
            MessageView::Conversation(_) => Some(PayloadKind::Conversation),
            MessageView::Delete(_) => Some(PayloadKind::Delete),
            MessageView::StatusUpdate(_) => Some(PayloadKind::StatusUpdate),
            MessageView::Heartbeat => None,
        }
    }
}

} // verus!
