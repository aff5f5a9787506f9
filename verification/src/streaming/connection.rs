//! The decisions of one streaming connection.
//!
//! A connection does no work on the network itself. Whoever drives it tells it
//! what happened, one event at a time, and does what it answers before telling
//! it the next event. So a message is with the handler before the next unit is
//! read, and messages reach the handler in the order of their arrival.

use crate::error::{Error, TransportFault};
use crate::streaming::dispatcher::{normalize, BackendMessage};
use crate::streaming::message::{Message, MessageView};
use vstd::prelude::*;

verus! {

/// Where a connection stands.
#[derive(Debug, Clone, Copy, PartialEq, Eq, Structural)]
pub enum Phase {
    /// Nothing is open and nothing is under way.
    Disconnected,
    /// The transport is being opened.
    Connecting,
    /// The transport stands and units are read from it.
    Connected,
    /// The transport has failed and the next attempt is awaited.
    Reconnecting,
    /// The caller has closed the connection. Nothing follows.
    Closed,
}

/// How patient a connection is. Times are in milliseconds.
#[derive(Debug, Clone, Copy, PartialEq, Eq, Structural)]
pub struct Policy {
    /// The number of transport failures in a row that ends the connection:
    /// the failure that makes this many is surfaced, the earlier ones are
    /// followed by a new attempt.
    pub max_failures: u32,
    /// How long the opening of the transport may take.
    pub connect_timeout: u64,
    /// How long a standing transport may stay silent.
    pub keep_alive_window: u64,
    /// After how long without one the connection sends a sign of life of its
    /// own, for backends that want one.
    pub ping_interval: Option<u64>,
}

/// All that a connection knows.
#[derive(Debug, Clone, Copy, PartialEq, Eq, Structural)]
pub struct State {
    pub phase: Phase,
    pub policy: Policy,
    /// The transport failures since the connection last was asked to open or
    /// last stood.
    pub failures: u32,
    /// When the opening began, while connecting; when data last arrived, while
    /// connected.
    pub since: u64,
    /// When the connection last gave a sign of life of its own.
    pub pinged: u64,
}

/// One inbound unit, as the codec made it out.
#[derive(Debug, Clone, PartialEq, Eq)]
pub enum Unit {
    /// The unit held this message.
    Decoded(BackendMessage),
    /// The unit was malformed; the text says how.
    Undecodable(String),
    /// The unit held nothing that the handler is to see.
    Ignored,
}

/// What can happen to a connection. `now` is the time at which it happened,
/// on a clock that does not run backwards.
#[derive(Debug, Clone, PartialEq, Eq)]
pub enum Event {
    /// The caller asks for the stream.
    Open { now: u64 },
    /// The transport stands.
    Opened { now: u64 },
    /// A unit arrived.
    Received { now: u64, unit: Unit },
    /// The handler reported a fault.
    HandlerFailed { cause: String },
    /// The transport failed.
    TransportFailed { fault: TransportFault },
    /// The backend rejected the access token.
    Unauthorized { cause: String },
    /// Time has passed and nothing else has happened.
    Tick { now: u64 },
    /// The wait before a new attempt is over.
    RetryDue { now: u64 },
    /// The caller closes the stream.
    Close,
}

/// What the driver of a connection is to do next.
#[derive(Debug, Clone, PartialEq, Eq)]
pub enum Action {
    /// Nothing; await the next event.
    Idle,
    /// Open the transport.
    OpenTransport,
    /// Hand this message to the handler.
    Deliver(Message),
    /// Tell the caller of this failure; the connection goes on.
    Report(Error),
    /// Give up the transport, wait, and then report that the wait is over.
    Backoff,
    /// Send a sign of life.
    Ping,
    /// Give up the transport and tell the caller of this failure, which ends
    /// the connection.
    Fail(Error),
    /// Give up the transport; the caller has closed the stream.
    Shutdown,
}

/// An action with the message in it as a mathematical value.
pub enum ActionView {
    Idle,
    OpenTransport,
    Deliver(MessageView),
    Report(Error),
    Backoff,
    Ping,
    Fail(Error),
    Shutdown,
}

impl View for Action {
    type V = ActionView;

    open spec fn view(&self) -> ActionView {
        match *self {
            Action::Idle => ActionView::Idle,
            Action::OpenTransport => ActionView::OpenTransport,
            Action::Deliver(message) => ActionView::Deliver(message@),
            Action::Report(error) => ActionView::Report(error),
            Action::Backoff => ActionView::Backoff,
            Action::Ping => ActionView::Ping,
            Action::Fail(error) => ActionView::Fail(error),
            Action::Shutdown => ActionView::Shutdown,
        }
    }
}

/// The views of a sequence of actions, in its order.
pub open spec fn action_views(actions: Seq<Action>) -> Seq<ActionView> {
    actions.map_values(|a: Action| a@)
}

/// The time from `since` to `now`; none if the clock ran backwards.
pub open spec fn elapsed(since: u64, now: u64) -> int {
    if now >= since {
        now - since
    } else {
        0
    }
}

/// The state in which `policy` makes a connection begin.
pub open spec fn initial(policy: Policy) -> State {
    State { phase: Phase::Disconnected, policy, failures: 0, since: 0, pinged: 0 }
}

/// Whether one more transport failure would be as many in a row as the policy
/// bears.
pub open spec fn exhausted(s: State) -> bool {
    s.failures + 1 >= s.policy.max_failures
}

/// What follows a transport failure while the transport was being opened or
/// stood: a new attempt after a wait, or, where the policy bears no more, the
/// end of the connection with that failure surfaced.
pub open spec fn after_failure(s: State, fault: TransportFault) -> (State, ActionView) {
    if exhausted(s) {
        (
            State { phase: Phase::Disconnected, ..s },
            ActionView::Fail(Error::TransportError(fault)),
        )
    } else {
        (
            State { phase: Phase::Reconnecting, failures: (s.failures + 1) as u32, ..s },
            ActionView::Backoff,
        )
    }
}

/// What follows the rejection of the access token: the end of the connection,
/// with no new attempt.
pub open spec fn after_rejection(s: State, cause: String) -> (State, ActionView) {
    (State { phase: Phase::Disconnected, ..s }, ActionView::Fail(Error::AuthError(cause)))
}

/// Whether a sign of life of the connection's own is due at `now`.
pub open spec fn ping_due(s: State, now: u64) -> bool {
    s.policy.ping_interval matches Some(interval) && elapsed(s.pinged, now) >= interval
}

/// What a unit that arrived on a standing transport leads to.
pub open spec fn unit_action(unit: Unit) -> ActionView {
    match unit {
        Unit::Decoded(message) => ActionView::Deliver(message.canonical()),
        Unit::Undecodable(cause) => ActionView::Report(Error::DecodeError(cause)),
        Unit::Ignored => ActionView::Idle,
    }
}

/// The state after an event, and what the driver is to do.
///
/// A request to close is obeyed in every phase but `Closed`, and a fault of
/// the handler is reported in every phase. Every other event counts only in
/// the phase that awaits it; elsewhere it changes nothing and asks for nothing.
pub open spec fn next(s: State, event: Event) -> (State, ActionView) {
    match event {
        Event::Close => if s.phase is Closed {
            (s, ActionView::Idle)
        } else {
            (State { phase: Phase::Closed, ..s }, ActionView::Shutdown)
        },
        Event::HandlerFailed { cause } => (s, ActionView::Report(Error::HandlerError(cause))),
        Event::Open { now } => if s.phase is Disconnected {
            (
                State { phase: Phase::Connecting, failures: 0, since: now, ..s },
                ActionView::OpenTransport,
            )
        } else {
            (s, ActionView::Idle)
        },
        Event::Opened { now } => if s.phase is Connecting {
            (
                State { phase: Phase::Connected, failures: 0, since: now, pinged: now, ..s },
                ActionView::Idle,
            )
        } else {
            (s, ActionView::Idle)
        },
        Event::Received { now, unit } => if s.phase is Connected {
            (State { since: now, ..s }, unit_action(unit))
        } else {
            (s, ActionView::Idle)
        },
        Event::TransportFailed { fault } => if s.phase is Connecting || s.phase is Connected {
            after_failure(s, fault)
        } else {
            (s, ActionView::Idle)
        },
        Event::Unauthorized { cause } => if s.phase is Connecting || s.phase is Connected {
            after_rejection(s, cause)
        } else {
            (s, ActionView::Idle)
        },
        Event::Tick { now } => if s.phase is Connecting {
            if elapsed(s.since, now) >= s.policy.connect_timeout {
                after_failure(s, TransportFault::TimedOut)
            } else {
                (s, ActionView::Idle)
            }
        } else if s.phase is Connected {
            if elapsed(s.since, now) >= s.policy.keep_alive_window {
                after_failure(s, TransportFault::TimedOut)
            } else if ping_due(s, now) {
                (State { pinged: now, ..s }, ActionView::Ping)
            } else {
                (s, ActionView::Idle)
            }
        } else {
            (s, ActionView::Idle)
        },
        Event::RetryDue { now } => if s.phase is Reconnecting {
            (State { phase: Phase::Connecting, since: now, ..s }, ActionView::OpenTransport)
        } else {
            (s, ActionView::Idle)
        },
    }
}

/// The state after a sequence of events, and what the driver was to do after
/// each of them.
pub open spec fn run(s: State, events: Seq<Event>) -> (State, Seq<ActionView>)
    decreases events.len(),
{
    if events.len() == 0 {
        (s, Seq::empty())
    } else {
        let (before, actions) = run(s, events.drop_last());
        let (after, action) = next(before, events.last());
        (after, actions.push(action))
    }
}

/// One streaming connection.
#[derive(Debug, Clone, PartialEq, Eq)]
pub struct Connection {
    state: State,
}

impl View for Connection {
    type V = State;

    closed spec fn view(&self) -> State {
        self.state
    }
}

impl Connection {
    /// A connection that has not been asked to open yet.
    pub fn new(policy: Policy) -> (connection: Connection)
        ensures
            connection@ == initial(policy),
    {
        Connection {
            state: State { phase: Phase::Disconnected, policy, failures: 0, since: 0, pinged: 0 },
        }
    }

    /// All that the connection knows.
    pub fn state(&self) -> (state: State)
        ensures
            state == self@,
    {
        self.state
    }

    /// Where the connection stands.
    pub fn phase(&self) -> (phase: Phase)
        ensures
            phase == self@.phase,
    {
        self.state.phase
    }

    fn fail(&mut self, fault: TransportFault) -> (action: Action)
        ensures
            (final(self)@, action@) == after_failure(old(self)@, fault),
    {
        let max = self.state.policy.max_failures;
        if max <= 1 || self.state.failures >= max - 1 {
            self.state.phase = Phase::Disconnected;
            Action::Fail(Error::TransportError(fault))
        } else {
            self.state.failures = self.state.failures + 1;
            self.state.phase = Phase::Reconnecting;
            Action::Backoff
        }
    }

    /// Takes one event in and says what the driver is to do.
    pub fn step(&mut self, event: Event) -> (action: Action)
        ensures
            (final(self)@, action@) == next(old(self)@, event),
    {
        match event {
            Event::Close => {
                if self.state.phase == Phase::Closed {
                    Action::Idle
                } else {
                    self.state.phase = Phase::Closed;
                    Action::Shutdown
                }
            },
            Event::HandlerFailed { cause } => Action::Report(Error::HandlerError(cause)),
            Event::Open { now } => {
                if self.state.phase == Phase::Disconnected {
                    self.state.phase = Phase::Connecting;
                    self.state.failures = 0;
                    self.state.since = now;
                    Action::OpenTransport
                } else {
                    Action::Idle
                }
            },
            Event::Opened { now } => {
                if self.state.phase == Phase::Connecting {
                    self.state.phase = Phase::Connected;
                    self.state.failures = 0;
                    self.state.since = now;
                    self.state.pinged = now;
                }
                Action::Idle
            },
            Event::Received { now, unit } => {
                if self.state.phase == Phase::Connected {
                    self.state.since = now;
                    match unit {
                        Unit::Decoded(message) => Action::Deliver(normalize(message)),
                        Unit::Undecodable(cause) => Action::Report(Error::DecodeError(cause)),
                        Unit::Ignored => Action::Idle,
                    }
                } else {
                    Action::Idle
                }
            },
            Event::TransportFailed { fault } => {
                if self.state.phase == Phase::Connecting || self.state.phase == Phase::Connected {
                    self.fail(fault)
                } else {
                    Action::Idle
                }
            },
            Event::Unauthorized { cause } => {
                if self.state.phase == Phase::Connecting || self.state.phase == Phase::Connected {
                    self.state.phase = Phase::Disconnected;
                    Action::Fail(Error::AuthError(cause))
                } else {
                    Action::Idle
                }
            },
            Event::Tick { now } => {
                if self.state.phase == Phase::Connecting {
                    if now >= self.state.since && now - self.state.since
                        >= self.state.policy.connect_timeout
                        || self.state.policy.connect_timeout == 0 {
                        self.fail(TransportFault::TimedOut)
                    } else {
                        Action::Idle
                    }
                } else if self.state.phase == Phase::Connected {
                    if now >= self.state.since && now - self.state.since
                        >= self.state.policy.keep_alive_window
                        || self.state.policy.keep_alive_window == 0 {
                        self.fail(TransportFault::TimedOut)
                    } else {
                        let due = match self.state.policy.ping_interval {
                            Some(interval) => now >= self.state.pinged && now - self.state.pinged
                                >= interval || interval == 0,
                            None => false,
                        };
                        if due {
                            self.state.pinged = now;
                            Action::Ping
                        } else {
                            Action::Idle
                        }
                    }
                } else {
                    Action::Idle
                }
            },
            Event::RetryDue { now } => {
                if self.state.phase == Phase::Reconnecting {
                    self.state.phase = Phase::Connecting;
                    self.state.since = now;
                    Action::OpenTransport
                } else {
                    Action::Idle
                }
            },
        }
    }

    /// Takes a sequence of events in, one after the other, and says what the
    /// driver was to do after each.
    pub fn feed(&mut self, events: Vec<Event>) -> (actions: Vec<Action>)
        ensures
            (final(self)@, action_views(actions@)) == run(old(self)@, events@),
    {
        let ghost all = events@;
        let ghost start = self@;
        let mut actions: Vec<Action> = Vec::new();
        for event in it: events
            invariant
                it.seq() == all,
                (self@, action_views(actions@)) == run(start, all.take(it.index())),
        {
            let action = self.step(event);
            actions.push(action);
            assert(all.take(it.index() + 1).drop_last() =~= all.take(it.index() as int));
        }
        assert(all.take(all.len() as int) =~= all);
        actions
    }
}

} // verus!
