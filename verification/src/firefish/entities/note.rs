//! Firefish notes.

use super::reaction::{map_reaction, reactions_of, ReactionCount};
use super::user::User;
use crate::entities::account::Account;
use crate::entities::attachment::Attachment;
use crate::entities::status::{Post, PostView, Visibility};
use chrono::NaiveDateTime;
use vstd::prelude::*;
use vstd::std_specs::convert::FromSpecImpl;

verus! {

/// Who may see a note.
#[derive(Debug, Clone, Copy, PartialEq, Eq, Structural)]
pub enum NoteVisibility {
    Public,
    Home,
    Followers,
    Specified,
}

impl NoteVisibility {
    /// The canonical visibility that stands for this one.
    pub open spec fn canonical(self) -> Visibility {
        match self {
            NoteVisibility::Public => Visibility::Public,
            NoteVisibility::Home => Visibility::Unlisted,
            NoteVisibility::Followers => Visibility::Private,
            NoteVisibility::Specified => Visibility::Direct,
        }
    }
}

impl From<NoteVisibility> for Visibility {
    fn from(val: NoteVisibility) -> (visibility: Visibility)
        ensures
            visibility == val.canonical(),
    {
        match val {
            NoteVisibility::Public => Visibility::Public,
            NoteVisibility::Home => Visibility::Unlisted,
            NoteVisibility::Followers => Visibility::Private,
            NoteVisibility::Specified => Visibility::Direct,
        }
    }
}

impl FromSpecImpl<NoteVisibility> for Visibility {
    open spec fn obeys_from_spec() -> bool {
        true
    }

    open spec fn from_spec(val: NoteVisibility) -> Visibility {
        val.canonical()
    }
}

/// A note as Firefish reports it. Its reaction counts are keyed by name.
#[derive(Debug, Clone, PartialEq, Eq)]
pub struct Note {
    pub id: String,
    pub created_at: NaiveDateTime,
    pub user: User,
    /// The body; a note that only passes another one on has none.
    pub text: Option<String>,
    pub visibility: NoteVisibility,
    pub reactions: Vec<ReactionCount>,
    /// The name of the reaction that the reader gave, if any.
    pub my_reaction: Option<String>,
}

impl Note {
    /// The canonical post that stands for this note: a note without a body
    /// becomes a post with an empty one, and each reaction count becomes a
    /// reaction, in the same order.
    pub open spec fn post(self) -> PostView {
        PostView {
            id: self.id,
            account: self.user.account(),
            content: match self.text {
                Some(text) => text@,
                None => Seq::empty(),
            },
            created_at: self.created_at,
            media_attachments: Seq::empty(),
            reactions: reactions_of(self.reactions@, self.my_reaction),
            visibility: self.visibility.canonical(),
        }
    }
}

impl From<Note> for Post {
    /// Normalises a note. The result is stated over its view, because its
    /// sequences are new ones.
    fn from(val: Note) -> (post: Post)
        ensures
            post@ == val.post(),
    {
        let content = match val.text {
            Some(text) => text,
            None => String::new(),
        };
        let media_attachments: Vec<Attachment> = Vec::new();
        Post {
            id: val.id,
            account: Account::from(val.user),
            content,
            created_at: val.created_at,
            media_attachments,
            reactions: map_reaction(val.reactions, val.my_reaction),
            visibility: Visibility::from(val.visibility),
        }
    }
}

impl FromSpecImpl<Note> for Post {
    open spec fn obeys_from_spec() -> bool {
        false
    }

    open spec fn from_spec(val: Note) -> Post {
        arbitrary()
    }
}

} // verus!
