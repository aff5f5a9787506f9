//! One client for every backend.

use crate::streaming::codec::{Vocabulary, VocabularyView};
use crate::streaming::connection::{initial, next, Action, Connection, Event, Policy};
use vstd::prelude::*;

verus! {

/// The backends that a client can talk to.
#[derive(Debug, Clone, Copy, PartialEq, Eq, Structural)]
pub enum SNS {
    Mastodon,
    Firefish,
    Pixelfed,
}

impl SNS {
    /// The names that this backend gives to the units of a stream.
    pub open spec fn events(self) -> VocabularyView {
        match self {
            SNS::Mastodon => crate::mastodon::streaming::events(),
            SNS::Firefish => crate::firefish::streaming::events(),
            SNS::Pixelfed => crate::pixelfed::streaming::events(),
        }
    }

    /// The table of the names that this backend gives to the units of a
    /// stream.
    pub fn vocabulary(&self) -> (table: Vocabulary)
        ensures
            table@ == self.events(),
    {
        match self {
            SNS::Mastodon => crate::mastodon::streaming::vocabulary(),
            SNS::Firefish => crate::firefish::streaming::vocabulary(),
            SNS::Pixelfed => crate::pixelfed::streaming::vocabulary(),
        }
    }
}

/// The timelines that can be followed live.
#[derive(Debug, Clone, PartialEq, Eq)]
pub enum StreamKind {
    /// What concerns the reader: the home timeline and the notifications.
    User,
    /// All public posts that the server knows of.
    Public,
    /// The public posts of the server's own accounts.
    Local,
    /// The reader's private conversations.
    Direct,
    /// The public posts with this tag.
    Tag(String),
    /// The posts of the accounts on the list with this identifier.
    List(String),
}

/// A stream that a client has set up: which timeline it follows, how its
/// units are read, and the connection that carries it.
#[derive(Debug, Clone, PartialEq, Eq)]
pub struct Stream {
    pub kind: StreamKind,
    pub vocabulary: Vocabulary,
    pub connection: Connection,
}

impl Stream {
    /// Asks for the stream at the time `now`, and says what is to be done for
    /// it: a connection that is disconnected asks for its transport to be
    /// opened, any other is left as it is.
    pub fn open(&mut self, now: u64) -> (action: Action)
        ensures
            (final(self).connection@, action@) == next(old(self).connection@, Event::Open { now }),
            final(self).kind == old(self).kind,
            final(self).vocabulary == old(self).vocabulary,
    {
        self.connection.step(Event::Open { now })
    }

    /// Closes the stream, and says what is to be done for it: the transport is
    /// to be given up, unless the stream was closed before. Nothing reaches
    /// the handler afterwards.
    pub fn close(&mut self) -> (action: Action)
        ensures
            (final(self).connection@, action@) == next(old(self).connection@, Event::Close),
            final(self).kind == old(self).kind,
            final(self).vocabulary == old(self).vocabulary,
    {
        self.connection.step(Event::Close)
    }
}

/// What a client is made of.
pub struct ClientView {
    pub sns: SNS,
    pub access_token: Option<String>,
    pub policy: Policy,
}

/// A client of one backend. The backend is chosen when the client is made and
/// stays; the access token is only ever read.
#[derive(Debug, Clone, PartialEq, Eq)]
pub struct Client {
    sns: SNS,
    access_token: Option<String>,
    policy: Policy,
}

impl View for Client {
    type V = ClientView;

    closed spec fn view(&self) -> ClientView {
        ClientView { sns: self.sns, access_token: self.access_token, policy: self.policy }
    }
}

impl Client {
    /// A client of the backend `sns`, whose streams are as patient as `policy`
    /// says.
    pub fn new(sns: SNS, access_token: Option<String>, policy: Policy) -> (client: Client)
        ensures
            client@ == (ClientView { sns, access_token, policy }),
    {
        Client { sns, access_token, policy }
    }

    /// The backend that the client talks to.
    pub fn sns(&self) -> (sns: SNS)
        ensures
            sns == self@.sns,
    {
        self.sns
    }

    /// The access token, for whoever opens a transport on the client's behalf.
    pub fn access_token(&self) -> (token: &Option<String>)
        ensures
            *token == self@.access_token,
    {
        &self.access_token
    }

    /// Sets up a stream of the given timeline: it reads its units by the
    /// table of the client's backend, and its connection has the client's
    /// policy and has not been asked to open yet.
    pub fn streaming(&self, kind: StreamKind) -> (stream: Stream)
        ensures
            stream.kind == kind,
            stream.vocabulary@ == self@.sns.events(),
            stream.connection@ == initial(self@.policy),
    {
        Stream {
            kind,
            vocabulary: self.sns.vocabulary(),
            connection: Connection::new(self.policy),
        }
    }
}

} // verus!
