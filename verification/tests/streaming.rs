use chrono::{NaiveDate, NaiveDateTime};
use megalodon::entities::notification::Notification as CanonicalNotification;
use megalodon::entities::status::Post;
use megalodon::error::{Error, TransportFault};
use megalodon::firefish::entities::note::{Note, NoteVisibility};
use megalodon::firefish::entities::notification::{Notification, NotificationType};
use megalodon::firefish::entities::user::User;
use megalodon::firefish::streaming::ChannelMessage;
use megalodon::mastodon::entities::account::Account;
use megalodon::mastodon::entities::conversation::Conversation;
use megalodon::mastodon::entities::status::{Status, StatusVisibility};
use megalodon::mastodon::streaming::StreamMessage;
use megalodon::streaming::connection::{Action, Connection, Event, Phase, Policy, State, Unit};
use megalodon::streaming::dispatcher::{normalize, BackendMessage};
use megalodon::streaming::message::Message;

fn at(second: u32) -> NaiveDateTime {
    NaiveDate::from_ymd_opt(2024, 6, 1).unwrap().and_hms_opt(12, 0, second).unwrap()
}

fn policy(max_failures: u32) -> Policy {
    Policy { max_failures, connect_timeout: 5_000, keep_alive_window: 30_000, ping_interval: None }
}

fn note(id: &str) -> Note {
    Note {
        id: id.to_string(),
        created_at: at(1),
        user: User { id: "u".to_string(), name: None, username: "u".to_string(), host: None },
        text: Some(format!("text of {}", id)),
        visibility: NoteVisibility::Public,
        reactions: Vec::new(),
        my_reaction: None,
    }
}

fn status(id: &str) -> Status {
    Status {
        id: id.to_string(),
        account: Account {
            id: "a".to_string(),
            username: "a".to_string(),
            acct: "a".to_string(),
            display_name: "A".to_string(),
        },
        content: format!("content of {}", id),
        created_at: at(2),
        media_attachments: Vec::new(),
        visibility: StatusVisibility::Public,
    }
}

fn unit(id: &str) -> BackendMessage {
    BackendMessage::Firefish(ChannelMessage::Note(note(id)))
}

fn received(now: u64, message: BackendMessage) -> Event {
    Event::Received { now, unit: Unit::Decoded(message) }
}

fn failed(fault: TransportFault) -> Event {
    Event::TransportFailed { fault }
}

fn connected(policy: Policy, now: u64) -> Connection {
    let mut connection = Connection::new(policy);
    assert_eq!(connection.step(Event::Open { now }), Action::OpenTransport);
    assert_eq!(connection.step(Event::Opened { now }), Action::Idle);
    assert_eq!(connection.phase(), Phase::Connected);
    connection
}

#[test]
fn new_connection_is_disconnected() {
    let connection = Connection::new(policy(3));
    assert_eq!(
        connection.state(),
        State { phase: Phase::Disconnected, policy: policy(3), failures: 0, since: 0, pinged: 0 }
    );
}

#[test]
fn connection_walks_through_its_phases() {
    let mut connection = Connection::new(policy(3));
    assert_eq!(connection.phase(), Phase::Disconnected);
    assert_eq!(connection.step(Event::Open { now: 10 }), Action::OpenTransport);
    assert_eq!(connection.phase(), Phase::Connecting);
    assert_eq!(connection.state().since, 10);
    assert_eq!(connection.step(Event::Opened { now: 20 }), Action::Idle);
    assert_eq!(connection.phase(), Phase::Connected);
    assert_eq!(connection.state().since, 20);
    assert_eq!(connection.state().pinged, 20);
    assert_eq!(connection.step(failed(TransportFault::Reset)), Action::Backoff);
    assert_eq!(connection.phase(), Phase::Reconnecting);
    assert_eq!(connection.state().failures, 1);
    assert_eq!(connection.step(Event::RetryDue { now: 30 }), Action::OpenTransport);
    assert_eq!(connection.phase(), Phase::Connecting);
    assert_eq!(connection.state().since, 30);
    assert_eq!(connection.step(Event::Opened { now: 40 }), Action::Idle);
    assert_eq!(connection.phase(), Phase::Connected);
    assert_eq!(connection.state().failures, 0);
    assert_eq!(connection.step(Event::Close), Action::Shutdown);
    assert_eq!(connection.phase(), Phase::Closed);
}

#[test]
fn three_units_are_delivered_in_order() {
    let mut connection = connected(policy(3), 0);
    let actions = connection.feed(vec![
        received(1, unit("A")),
        received(2, unit("B")),
        received(3, unit("C")),
    ]);
    assert_eq!(
        actions,
        vec![
            Action::Deliver(Message::ContentUpdate(Post::from(note("A")))),
            Action::Deliver(Message::ContentUpdate(Post::from(note("B")))),
            Action::Deliver(Message::ContentUpdate(Post::from(note("C")))),
        ]
    );
    assert_eq!(connection.phase(), Phase::Connected);
    assert_eq!(connection.state().since, 3);
}

#[test]
fn order_does_not_depend_on_the_times_of_arrival() {
    // B arrives long after A, and C at the same instant as B.
    let mut connection = connected(policy(3), 0);
    let mut delivered = Vec::new();
    for (now, id) in [(5, "A"), (29_000, "B"), (29_000, "C")] {
        match connection.step(received(now, unit(id))) {
            Action::Deliver(Message::ContentUpdate(post)) => delivered.push(post.id),
            other => panic!("unexpected action {:?}", other),
        }
    }
    assert_eq!(delivered, vec!["A", "B", "C"]);
}

#[test]
fn malformed_units_and_handler_faults_do_not_disturb_the_order() {
    let mut connection = connected(policy(1), 0);
    let actions = connection.feed(vec![
        received(1, unit("A")),
        Event::Received { now: 2, unit: Unit::Undecodable("expected value at line 1".to_string()) },
        Event::HandlerFailed { cause: "handler panicked".to_string() },
        received(3, unit("B")),
        Event::Received { now: 4, unit: Unit::Ignored },
        received(5, unit("C")),
    ]);
    assert_eq!(
        actions,
        vec![
            Action::Deliver(Message::ContentUpdate(Post::from(note("A")))),
            Action::Report(Error::DecodeError("expected value at line 1".to_string())),
            Action::Report(Error::HandlerError("handler panicked".to_string())),
            Action::Deliver(Message::ContentUpdate(Post::from(note("B")))),
            Action::Idle,
            Action::Deliver(Message::ContentUpdate(Post::from(note("C")))),
        ]
    );
    assert_eq!(connection.phase(), Phase::Connected);
    assert_eq!(connection.state().failures, 0);
    assert_eq!(connection.state().since, 5);
}

#[test]
fn feeding_nothing_changes_nothing() {
    let mut connection = connected(policy(3), 7);
    let before = connection.state();
    assert_eq!(connection.feed(Vec::new()), Vec::new());
    assert_eq!(connection.state(), before);
}

#[test]
fn heartbeat_is_delivered() {
    let mut connection = connected(policy(3), 0);
    assert_eq!(
        connection.step(received(100, BackendMessage::Heartbeat)),
        Action::Deliver(Message::Heartbeat)
    );
    assert_eq!(connection.state().since, 100);
}

#[test]
fn third_failure_in_a_row_is_fatal() {
    let mut connection = connected(policy(3), 0);
    let actions = connection.feed(vec![
        failed(TransportFault::Reset),
        Event::RetryDue { now: 1_000 },
        failed(TransportFault::Refused),
        Event::RetryDue { now: 3_000 },
        failed(TransportFault::Ended),
    ]);
    assert_eq!(
        actions,
        vec![
            Action::Backoff,
            Action::OpenTransport,
            Action::Backoff,
            Action::OpenTransport,
            Action::Fail(Error::TransportError(TransportFault::Ended)),
        ]
    );
    assert_eq!(connection.phase(), Phase::Disconnected);
    // Nothing is retried after that.
    assert_eq!(connection.step(Event::RetryDue { now: 9_000 }), Action::Idle);
    assert_eq!(connection.step(Event::Tick { now: 99_000 }), Action::Idle);
    assert_eq!(connection.step(failed(TransportFault::Reset)), Action::Idle);
    assert_eq!(connection.phase(), Phase::Disconnected);
}

#[test]
fn bound_of_one_bears_no_failure() {
    let mut connection = connected(policy(1), 0);
    assert_eq!(
        connection.step(failed(TransportFault::Reset)),
        Action::Fail(Error::TransportError(TransportFault::Reset))
    );
    assert_eq!(connection.phase(), Phase::Disconnected);
}

#[test]
fn bound_of_zero_bears_no_failure() {
    let mut connection = connected(policy(0), 0);
    assert_eq!(
        connection.step(failed(TransportFault::Ended)),
        Action::Fail(Error::TransportError(TransportFault::Ended))
    );
    assert_eq!(connection.phase(), Phase::Disconnected);
}

#[test]
fn largest_bound_bears_failures() {
    let mut connection = connected(policy(u32::MAX), 0);
    assert_eq!(connection.step(failed(TransportFault::Reset)), Action::Backoff);
    assert_eq!(connection.state().failures, 1);
}

#[test]
fn failure_while_connecting_counts() {
    let mut connection = Connection::new(policy(2));
    assert_eq!(connection.step(Event::Open { now: 0 }), Action::OpenTransport);
    assert_eq!(connection.step(failed(TransportFault::Refused)), Action::Backoff);
    assert_eq!(connection.step(Event::RetryDue { now: 10 }), Action::OpenTransport);
    assert_eq!(
        connection.step(failed(TransportFault::Refused)),
        Action::Fail(Error::TransportError(TransportFault::Refused))
    );
    assert_eq!(connection.phase(), Phase::Disconnected);
}

#[test]
fn standing_transport_ends_the_row_of_failures() {
    let mut connection = connected(policy(2), 0);
    for round in 0..5u64 {
        assert_eq!(connection.step(failed(TransportFault::Reset)), Action::Backoff);
        assert_eq!(connection.step(Event::RetryDue { now: round }), Action::OpenTransport);
        assert_eq!(connection.step(Event::Opened { now: round }), Action::Idle);
        assert_eq!(connection.state().failures, 0);
    }
}

#[test]
fn caller_can_open_again_after_a_fatal_failure() {
    let mut connection = connected(policy(1), 0);
    connection.step(failed(TransportFault::Reset));
    assert_eq!(connection.phase(), Phase::Disconnected);
    assert_eq!(connection.step(Event::Open { now: 50 }), Action::OpenTransport);
    assert_eq!(connection.phase(), Phase::Connecting);
    assert_eq!(connection.state().failures, 0);
}

#[test]
fn silence_beyond_the_window_starts_a_reconnect() {
    let mut connection = connected(policy(3), 1_000);
    assert_eq!(connection.step(Event::Tick { now: 30_999 }), Action::Idle);
    assert_eq!(connection.phase(), Phase::Connected);
    assert_eq!(connection.step(Event::Tick { now: 31_000 }), Action::Backoff);
    assert_eq!(connection.phase(), Phase::Reconnecting);
    assert_eq!(connection.state().failures, 1);
    assert_eq!(connection.step(Event::RetryDue { now: 32_000 }), Action::OpenTransport);
    assert_eq!(connection.phase(), Phase::Connecting);
}

#[test]
fn any_arrival_restarts_the_window() {
    let mut connection = connected(policy(3), 0);
    connection.step(received(20_000, BackendMessage::Heartbeat));
    assert_eq!(connection.step(Event::Tick { now: 49_999 }), Action::Idle);
    connection.step(Event::Received { now: 49_999, unit: Unit::Ignored });
    assert_eq!(connection.step(Event::Tick { now: 79_998 }), Action::Idle);
    connection.step(Event::Received { now: 79_998, unit: Unit::Undecodable("bad".to_string()) });
    assert_eq!(connection.step(Event::Tick { now: 109_997 }), Action::Idle);
    assert_eq!(connection.step(Event::Tick { now: 109_998 }), Action::Backoff);
}

#[test]
fn silence_is_fatal_when_nothing_more_is_borne() {
    let mut connection = connected(policy(1), 0);
    assert_eq!(
        connection.step(Event::Tick { now: 30_000 }),
        Action::Fail(Error::TransportError(TransportFault::TimedOut))
    );
    assert_eq!(connection.phase(), Phase::Disconnected);
}

#[test]
fn clock_that_ran_backwards_shows_no_silence() {
    let mut connection = connected(policy(3), 50_000);
    assert_eq!(connection.step(Event::Tick { now: 0 }), Action::Idle);
    assert_eq!(connection.phase(), Phase::Connected);
}

#[test]
fn window_of_zero_bears_no_silence() {
    let mut connection = connected(
        Policy { max_failures: 3, connect_timeout: 0, keep_alive_window: 0, ping_interval: None },
        50,
    );
    assert_eq!(connection.step(Event::Tick { now: 0 }), Action::Backoff);
    assert_eq!(connection.step(Event::RetryDue { now: 60 }), Action::OpenTransport);
    assert_eq!(connection.step(Event::Tick { now: 60 }), Action::Backoff);
    assert_eq!(connection.state().failures, 2);
}

#[test]
fn opening_that_takes_too_long_is_a_failure() {
    let mut connection = Connection::new(policy(2));
    connection.step(Event::Open { now: 100 });
    assert_eq!(connection.step(Event::Tick { now: 5_099 }), Action::Idle);
    assert_eq!(connection.step(Event::Tick { now: 5_100 }), Action::Backoff);
    assert_eq!(connection.phase(), Phase::Reconnecting);
    connection.step(Event::RetryDue { now: 6_000 });
    assert_eq!(
        connection.step(Event::Tick { now: 11_000 }),
        Action::Fail(Error::TransportError(TransportFault::TimedOut))
    );
}

#[test]
fn ping_is_sent_when_due() {
    let mut connection = connected(
        Policy {
            max_failures: 3,
            connect_timeout: 5_000,
            keep_alive_window: 30_000,
            ping_interval: Some(10_000),
        },
        0,
    );
    assert_eq!(connection.step(Event::Tick { now: 9_999 }), Action::Idle);
    assert_eq!(connection.step(Event::Tick { now: 10_000 }), Action::Ping);
    assert_eq!(connection.state().pinged, 10_000);
    assert_eq!(connection.state().since, 0);
    assert_eq!(connection.step(Event::Tick { now: 19_999 }), Action::Idle);
    assert_eq!(connection.step(Event::Tick { now: 20_000 }), Action::Ping);
    // Silence goes before the ping.
    assert_eq!(connection.step(Event::Tick { now: 30_000 }), Action::Backoff);
}

#[test]
fn rejected_token_is_fatal_at_once() {
    let mut connection = connected(policy(100), 0);
    assert_eq!(
        connection.step(Event::Unauthorized { cause: "401 Unauthorized".to_string() }),
        Action::Fail(Error::AuthError("401 Unauthorized".to_string()))
    );
    assert_eq!(connection.phase(), Phase::Disconnected);
    assert_eq!(connection.step(Event::RetryDue { now: 1 }), Action::Idle);

    let mut opening = Connection::new(policy(100));
    opening.step(Event::Open { now: 0 });
    assert_eq!(
        opening.step(Event::Unauthorized { cause: "expired".to_string() }),
        Action::Fail(Error::AuthError("expired".to_string()))
    );
    assert_eq!(opening.phase(), Phase::Disconnected);
}

#[test]
fn closed_connection_does_nothing_more() {
    let mut connection = connected(policy(3), 0);
    assert_eq!(connection.step(Event::Close), Action::Shutdown);
    let closed = connection.state();
    let actions = connection.feed(vec![
        received(1, unit("A")),
        Event::Open { now: 2 },
        Event::Opened { now: 3 },
        failed(TransportFault::Reset),
        Event::Unauthorized { cause: "no".to_string() },
        Event::Tick { now: 1_000_000 },
        Event::RetryDue { now: 1_000_001 },
        Event::HandlerFailed { cause: "late".to_string() },
        Event::Close,
    ]);
    assert_eq!(
        actions,
        vec![
            Action::Idle,
            Action::Idle,
            Action::Idle,
            Action::Idle,
            Action::Idle,
            Action::Idle,
            Action::Idle,
            Action::Report(Error::HandlerError("late".to_string())),
            Action::Idle,
        ]
    );
    assert_eq!(connection.state(), closed);
}

#[test]
fn close_is_obeyed_in_every_phase() {
    let mut disconnected = Connection::new(policy(3));
    assert_eq!(disconnected.step(Event::Close), Action::Shutdown);
    assert_eq!(disconnected.phase(), Phase::Closed);

    let mut connecting = Connection::new(policy(3));
    connecting.step(Event::Open { now: 0 });
    assert_eq!(connecting.step(Event::Close), Action::Shutdown);
    assert_eq!(connecting.phase(), Phase::Closed);

    let mut reconnecting = connected(policy(3), 0);
    reconnecting.step(failed(TransportFault::Reset));
    assert_eq!(reconnecting.step(Event::Close), Action::Shutdown);
    assert_eq!(reconnecting.phase(), Phase::Closed);
    assert_eq!(reconnecting.step(Event::RetryDue { now: 5 }), Action::Idle);
}

#[test]
fn events_out_of_place_change_nothing() {
    let mut connection = Connection::new(policy(3));
    let before = connection.state();
    let actions = connection.feed(vec![
        Event::Opened { now: 1 },
        received(2, unit("A")),
        failed(TransportFault::Reset),
        Event::Unauthorized { cause: "x".to_string() },
        Event::Tick { now: u64::MAX },
        Event::RetryDue { now: 3 },
    ]);
    assert!(actions.iter().all(|a| *a == Action::Idle));
    assert_eq!(connection.state(), before);

    let mut standing = connected(policy(3), 0);
    let before = standing.state();
    assert_eq!(standing.step(Event::Open { now: 9 }), Action::Idle);
    assert_eq!(standing.step(Event::Opened { now: 9 }), Action::Idle);
    assert_eq!(standing.step(Event::RetryDue { now: 9 }), Action::Idle);
    assert_eq!(standing.state(), before);
}

#[test]
fn units_that_arrive_while_not_connected_are_not_delivered() {
    let mut connection = connected(policy(3), 0);
    connection.step(failed(TransportFault::Reset));
    assert_eq!(connection.step(received(1, unit("A"))), Action::Idle);
    connection.step(Event::RetryDue { now: 2 });
    assert_eq!(connection.step(received(3, unit("B"))), Action::Idle);
}

#[test]
fn error_kinds() {
    assert!(Error::TransportError(TransportFault::Refused).is_connection_failure());
    assert!(Error::AuthError(String::new()).is_connection_failure());
    assert!(!Error::DecodeError(String::new()).is_connection_failure());
    assert!(!Error::HandlerError(String::new()).is_connection_failure());
}

#[test]
fn firefish_messages_are_normalised() {
    assert_eq!(
        normalize(BackendMessage::Firefish(ChannelMessage::Note(note("n")))),
        Message::ContentUpdate(Post::from(note("n")))
    );
    let notification = Notification {
        id: "x".to_string(),
        created_at: at(3),
        kind: NotificationType::Reaction,
        user: None,
        note: Some(note("n")),
        reaction: Some("👍".to_string()),
    };
    assert_eq!(
        normalize(BackendMessage::Firefish(ChannelMessage::Notification(notification.clone()))),
        Message::Notification(CanonicalNotification::from(notification))
    );
}

#[test]
fn mastodon_messages_are_normalised() {
    assert_eq!(
        normalize(BackendMessage::Mastodon(StreamMessage::Update(status("s")))),
        Message::ContentUpdate(Post::from(status("s")))
    );
    assert_eq!(
        normalize(BackendMessage::Mastodon(StreamMessage::StatusUpdate(status("s")))),
        Message::StatusUpdate(Post::from(status("s")))
    );
    assert_eq!(
        normalize(BackendMessage::Mastodon(StreamMessage::Delete("109".to_string()))),
        Message::Delete("109".to_string())
    );
    let conversation =
        Conversation { id: "c".to_string(), accounts: Vec::new(), last_status: None, unread: true };
    assert_eq!(
        Message::from(StreamMessage::Conversation(conversation.clone())),
        Message::Conversation(conversation.into())
    );
    assert_eq!(normalize(BackendMessage::Heartbeat), Message::Heartbeat);
}
