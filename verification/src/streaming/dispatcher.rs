//! The dispatcher: it takes one decoded message of a backend at a time and
//! makes of it the one message that the caller's handler is to receive.

use crate::firefish::streaming::ChannelMessage;
use crate::mastodon::streaming::StreamMessage;
use crate::streaming::message::{Message, MessageView, PayloadKind};
use vstd::prelude::*;

verus! {

/// One decoded message of a backend: the backend's own message, or the sign
/// of life that every backend gives.
#[derive(Debug, Clone, PartialEq, Eq)]
pub enum BackendMessage {
    Mastodon(StreamMessage),
    Firefish(ChannelMessage),
    Heartbeat,
}

impl BackendMessage {
    /// The message for the handler that stands for this one.
    pub open spec fn canonical(self) -> MessageView {
        match self {
            BackendMessage::Mastodon(message) => message.canonical(),
            BackendMessage::Firefish(message) => message.canonical(),
            BackendMessage::Heartbeat => MessageView::Heartbeat,
        }
    }

    /// What the payload of this message holds; a heartbeat has none.
    pub open spec fn kind(self) -> Option<PayloadKind> {
        match self {
            BackendMessage::Mastodon(message) => Some(message.kind()),
            BackendMessage::Firefish(message) => Some(message.kind()),
            BackendMessage::Heartbeat => None,
        }
    }
}

/// Normalises one message of a backend into the one message for the handler
/// that stands for it.
pub fn normalize(message: BackendMessage) -> (normalized: Message)
    ensures
        normalized@ == message.canonical(),
{
    match message {
        BackendMessage::Mastodon(message) => Message::from(message),
        BackendMessage::Firefish(message) => Message::from(message),
        BackendMessage::Heartbeat => Message::Heartbeat,
    }
}

/// A message for the handler holds what the backend's message held: no
/// normalisation turns one kind of message into another.
pub proof fn law_normalisation_keeps_the_kind(message: BackendMessage)
    ensures
        message.canonical().kind() == message.kind(),
{
}

} // verus!
