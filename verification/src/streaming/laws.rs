//! What holds of every streaming connection, whatever happens to it.

use crate::error::{Error, TransportFault};
use crate::streaming::connection::{
    elapsed, exhausted, next, run, ActionView, Event, Phase, State, Unit,
};
use crate::streaming::dispatcher::BackendMessage;
use crate::streaming::message::MessageView;
use vstd::prelude::*;

verus! {

/// The messages that a sequence of actions hands to the handler, in its order.
pub open spec fn delivered(actions: Seq<ActionView>) -> Seq<MessageView>
    decreases actions.len(),
{
    if actions.len() == 0 {
        Seq::empty()
    } else {
        match actions.last() {
            ActionView::Deliver(message) => delivered(actions.drop_last()).push(message),
            _ => delivered(actions.drop_last()),
        }
    }
}

/// The messages that arrived decoded in a sequence of events, in its order.
pub open spec fn decoded(events: Seq<Event>) -> Seq<BackendMessage>
    decreases events.len(),
{
    if events.len() == 0 {
        Seq::empty()
    } else {
        match events.last() {
            Event::Received { unit: Unit::Decoded(message), .. } => decoded(
                events.drop_last(),
            ).push(message),
            _ => decoded(events.drop_last()),
        }
    }
}

/// The messages for the handler that stand for a sequence of messages of a
/// backend, in its order.
pub open spec fn canonical_messages(messages: Seq<BackendMessage>) -> Seq<MessageView> {
    messages.map_values(|m: BackendMessage| m.canonical())
}

/// How often a sequence of actions asks for the transport to be opened.
pub open spec fn attempts(actions: Seq<ActionView>) -> nat
    decreases actions.len(),
{
    if actions.len() == 0 {
        0
    } else if actions.last() is OpenTransport {
        attempts(actions.drop_last()) + 1
    } else {
        attempts(actions.drop_last())
    }
}

/// How many attempts to open the transport a connection may still make of its
/// own accord: the one that it is waiting for, and one after each failure that
/// its policy still bears.
pub open spec fn bearable(s: State) -> nat {
    let awaited: nat = if s.phase is Reconnecting {
        1
    } else {
        0
    };
    let borne: nat = if (s.phase is Connecting || s.phase is Connected || s.phase is Reconnecting)
        && s.failures + 1 < s.policy.max_failures {
        (s.policy.max_failures - 1 - s.failures) as nat
    } else {
        0
    };
    awaited + borne
}

/// Transport failures in a row: each of `faults`, followed by the end of the
/// wait at the time that `times` gives for it.
pub open spec fn setbacks(faults: Seq<TransportFault>, times: Seq<u64>) -> Seq<Event>
    recommends
        faults.len() == times.len(),
    decreases faults.len(),
{
    if faults.len() == 0 {
        Seq::empty()
    } else {
        setbacks(faults.drop_last(), times.drop_last()).push(
            Event::TransportFailed { fault: faults.last() },
        ).push(Event::RetryDue { now: times.last() })
    }
}

/// Decoded messages arriving one after the other: each of `messages`, at the
/// time that `times` gives for it.
pub open spec fn arrivals(messages: Seq<BackendMessage>, times: Seq<u64>) -> Seq<Event>
    recommends
        messages.len() == times.len(),
{
    Seq::new(
        messages.len(),
        |i: int| Event::Received { now: times[i], unit: Unit::Decoded(messages[i]) },
    )
}

/// One delivery for each of `messages`, normalised, in their order.
pub open spec fn deliveries(messages: Seq<BackendMessage>) -> Seq<ActionView> {
    Seq::new(messages.len(), |i: int| ActionView::Deliver(messages[i].canonical()))
}

/// Running one event more is one step after the run of the others.
proof fn lemma_run_push(s: State, events: Seq<Event>, event: Event)
    ensures
        run(s, events.push(event)) == ({
            let (before, actions) = run(s, events);
            let (after, action) = next(before, event);
            (after, actions.push(action))
        }),
{
    assert(events.push(event).drop_last() =~= events);
}

/// Messages reach the handler in the order of their arrival. While a
/// connection stands and nothing happens but units arriving and the handler
/// reporting faults, the connection keeps standing, and what it hands to the
/// handler is exactly the decoded messages, each normalised, none left out,
/// none twice, in the order in which they came. Neither a malformed unit nor
/// a fault of the handler changes that, nor the times of arrival.
pub proof fn law_messages_arrive_in_order(s: State, events: Seq<Event>)
    requires
        s.phase is Connected,
        forall|i: int|
            0 <= i < events.len() ==> (#[trigger] events[i]) is Received || events[i]
                is HandlerFailed,
    ensures
        run(s, events).0.phase is Connected,
        run(s, events).0.failures == s.failures,
        delivered(run(s, events).1) == canonical_messages(decoded(events)),
    decreases events.len(),
{
    if events.len() > 0 {
        let earlier = events.drop_last();
        law_messages_arrive_in_order(s, earlier);
        let (before, actions) = run(s, earlier);
        let (after, action) = next(before, events.last());
        assert(actions.push(action).drop_last() =~= actions);
        if let Event::Received { unit: Unit::Decoded(message), .. } = events.last() {
            assert(canonical_messages(decoded(earlier).push(message)) =~= canonical_messages(
                decoded(earlier),
            ).push(message.canonical()));
        }
    }
}

/// A standing connection that is fed decoded messages and nothing else asks
/// for one delivery after each, in the order in which they came, and for
/// nothing else, whenever they come.
pub proof fn law_every_message_is_delivered(
    s: State,
    messages: Seq<BackendMessage>,
    times: Seq<u64>,
)
    requires
        s.phase is Connected,
        messages.len() == times.len(),
    ensures
        run(s, arrivals(messages, times)).0.phase is Connected,
        run(s, arrivals(messages, times)).1 == deliveries(messages),
    decreases messages.len(),
{
    if messages.len() > 0 {
        law_every_message_is_delivered(s, messages.drop_last(), times.drop_last());
        assert(arrivals(messages, times).drop_last() =~= arrivals(
            messages.drop_last(),
            times.drop_last(),
        ));
    }
}

/// The failure that makes as many in a row as the policy bears ends the
/// connection: that failure is surfaced, and no new attempt is asked for.
/// Every earlier one is followed by a wait and a new attempt.
pub proof fn law_failures_are_borne_up_to_the_bound(s: State, fault: TransportFault)
    requires
        s.phase is Connecting || s.phase is Connected,
    ensures
        s.failures + 1 >= s.policy.max_failures ==> next(s, Event::TransportFailed { fault }) == (
            State { phase: Phase::Disconnected, ..s },
            ActionView::Fail(Error::TransportError(fault)),
        ),
        s.failures + 1 < s.policy.max_failures ==> next(s, Event::TransportFailed { fault }) == (
            State { phase: Phase::Reconnecting, failures: (s.failures + 1) as u32, ..s },
            ActionView::Backoff,
        ),
{
}

/// A connection whose policy bears `n` failures in a row, and which meets `n`
/// of them, makes a new attempt after each but the last and then gives up:
/// the last failure is surfaced and the connection is left disconnected.
pub proof fn law_failures_in_a_row_end_the_connection(
    s: State,
    faults: Seq<TransportFault>,
    times: Seq<u64>,
    last: TransportFault,
)
    requires
        s.phase is Connecting || s.phase is Connected,
        s.failures == 0,
        faults.len() == times.len(),
        faults.len() + 1 == s.policy.max_failures,
    ensures
        ({
            let events = setbacks(faults, times).push(Event::TransportFailed { fault: last });
            let (end, actions) = run(s, events);
            &&& end.phase is Disconnected
            &&& actions.last() == ActionView::Fail(Error::TransportError(last))
            &&& attempts(actions) == faults.len()
        }),
{
    lemma_setbacks(s, faults, times);
    lemma_run_push(s, setbacks(faults, times), Event::TransportFailed { fault: last });
    let (before, actions) = run(s, setbacks(faults, times));
    let (after, action) = next(before, Event::TransportFailed { fault: last });
    assert(actions.push(action).drop_last() =~= actions);
}

/// After failures in a row that the policy bears, each followed by the end of
/// its wait, the connection is opening the transport once more, has counted
/// every failure and has made one attempt for each.
proof fn lemma_setbacks(s: State, faults: Seq<TransportFault>, times: Seq<u64>)
    requires
        s.phase is Connecting || s.phase is Connected,
        s.failures == 0,
        faults.len() == times.len(),
        faults.len() + 1 <= s.policy.max_failures,
    ensures
        ({
            let (end, actions) = run(s, setbacks(faults, times));
            &&& faults.len() > 0 ==> end.phase is Connecting
            &&& faults.len() == 0 ==> end == s
            &&& end.failures == faults.len()
            &&& end.policy == s.policy
            &&& attempts(actions) == faults.len()
        }),
    decreases faults.len(),
{
    if faults.len() > 0 {
        let earlier = setbacks(faults.drop_last(), times.drop_last());
        lemma_setbacks(s, faults.drop_last(), times.drop_last());
        let failed = Event::TransportFailed { fault: faults.last() };
        let due = Event::RetryDue { now: times.last() };
        lemma_run_push(s, earlier, failed);
        lemma_run_push(s, earlier.push(failed), due);
        let (a, actions_a) = run(s, earlier);
        let (b, action_b) = next(a, failed);
        let (c, action_c) = next(b, due);
        assert(actions_a.push(action_b).drop_last() =~= actions_a);
        assert(attempts(actions_a.push(action_b)) == attempts(actions_a));
        assert(actions_a.push(action_b).push(action_c).drop_last() =~= actions_a.push(action_b));
    }
}

/// One step asks for no more attempts than the connection may still make and
/// leaves no more to make than there were, unless the caller asks anew or the
/// transport comes to stand.
proof fn lemma_step_within_bound(s: State, event: Event)
    requires
        !(event is Open),
        !(event is Opened),
    ensures
        ({
            let (after, action) = next(s, event);
            (if action is OpenTransport {
                1nat
            } else {
                0nat
            }) + bearable(after) <= bearable(s)
        }),
{
}

/// No connection tries without end. As long as the caller does not ask anew
/// and the transport does not come to stand, a connection asks for the
/// transport to be opened at most as often as its policy still bears: for a
/// connection that stands and has seen no failure, one time less than the
/// failures in a row that the policy names.
pub proof fn law_attempts_are_bounded(s: State, events: Seq<Event>)
    requires
        forall|i: int|
            0 <= i < events.len() ==> !((#[trigger] events[i]) is Open) && !(events[i] is Opened),
    ensures
        attempts(run(s, events).1) + bearable(run(s, events).0) <= bearable(s),
        s.phase is Connected && s.failures == 0 && s.policy.max_failures >= 1 ==> attempts(
            run(s, events).1,
        ) <= s.policy.max_failures - 1,
    decreases events.len(),
{
    if events.len() > 0 {
        let earlier = events.drop_last();
        law_attempts_are_bounded(s, earlier);
        let (before, actions) = run(s, earlier);
        let (after, action) = next(before, events.last());
        lemma_step_within_bound(before, events.last());
        assert(actions.push(action).drop_last() =~= actions);
    }
}

/// Silence is a failure of the transport. When a connection stands and no
/// data has arrived for as long as the keep-alive window, the next look at the
/// clock has the effect of a transport that timed out: where the policy bears
/// one more failure, the connection gives up the transport and awaits a new
/// attempt, which the end of the wait starts; else it ends with the failure
/// surfaced.
pub proof fn law_silence_is_a_failure(s: State, now: u64, later: u64)
    requires
        s.phase is Connected,
        elapsed(s.since, now) >= s.policy.keep_alive_window,
    ensures
        next(s, Event::Tick { now }) == next(
            s,
            Event::TransportFailed { fault: TransportFault::TimedOut },
        ),
        !exhausted(s) ==> {
            let (waiting, action) = next(s, Event::Tick { now });
            &&& waiting.phase is Reconnecting
            &&& action == ActionView::Backoff
            &&& next(waiting, Event::RetryDue { now: later }).0.phase is Connecting
            &&& next(waiting, Event::RetryDue { now: later }).1 == ActionView::OpenTransport
        },
        exhausted(s) ==> {
            let (end, action) = next(s, Event::Tick { now });
            &&& end.phase is Disconnected
            &&& action == ActionView::Fail(Error::TransportError(TransportFault::TimedOut))
        },
{
}

/// Within the keep-alive window a look at the clock ends nothing: the
/// connection keeps standing, and the time of the last arrival is kept.
pub proof fn law_patience_within_the_window(s: State, now: u64)
    requires
        s.phase is Connected,
        elapsed(s.since, now) < s.policy.keep_alive_window,
    ensures
        next(s, Event::Tick { now }).0.phase is Connected,
        next(s, Event::Tick { now }).0.since == s.since,
        next(s, Event::Tick { now }).0.failures == s.failures,
        next(s, Event::Tick { now }).1 is Ping || next(s, Event::Tick { now }).1 is Idle,
{
}

/// Any arrival, be it a message, a heartbeat, a malformed unit or one that is
/// passed over, is a sign of life: the keep-alive window begins anew with it.
pub proof fn law_every_arrival_is_a_sign_of_life(s: State, now: u64, unit: Unit)
    requires
        s.phase is Connected,
    ensures
        next(s, Event::Received { now, unit }).0 == (State { since: now, ..s }),
{
}

/// Only the caller closes a connection, and a request to close is always
/// obeyed.
pub proof fn law_only_the_caller_closes(s: State, event: Event)
    ensures
        next(s, event).0.phase is Closed <==> s.phase is Closed || event is Close,
{
}

/// A closed connection stays closed. It never changes again, asks for no
/// attempt and hands nothing to the handler; all that it still does is to
/// report a fault of the handler that reaches it late.
pub proof fn law_closed_is_final(s: State, events: Seq<Event>)
    requires
        s.phase is Closed,
    ensures
        run(s, events).0 == s,
        run(s, events).1.len() == events.len(),
        forall|i: int|
            0 <= i < events.len() ==> (#[trigger] run(s, events).1[i]) == (match events[i] {
                Event::HandlerFailed { cause } => ActionView::Report(Error::HandlerError(cause)),
                _ => ActionView::Idle,
            }),
        delivered(run(s, events).1) == Seq::<MessageView>::empty(),
        attempts(run(s, events).1) == 0,
    decreases events.len(),
{
    if events.len() > 0 {
        let earlier = events.drop_last();
        law_closed_is_final(s, earlier);
        let (before, actions) = run(s, earlier);
        let (after, action) = next(before, events.last());
        assert(actions.push(action).drop_last() =~= actions);
    }
}

/// A failure that ends a connection is surfaced once. It leaves the connection
/// disconnected, and a disconnected connection awaits the caller: until the
/// caller asks for the stream anew, it surfaces no failure, asks for no
/// attempt and hands nothing to the handler.
pub proof fn law_an_ended_connection_awaits_the_caller(s: State, events: Seq<Event>)
    requires
        s.phase is Disconnected,
        forall|i: int| 0 <= i < events.len() ==> !((#[trigger] events[i]) is Open),
    ensures
        run(s, events).0.phase is Disconnected || run(s, events).0.phase is Closed,
        run(s, events).1.len() == events.len(),
        forall|i: int|
            0 <= i < events.len() ==> !((#[trigger] run(s, events).1[i]) is Fail) && !(run(
                s,
                events,
            ).1[i] is Deliver) && !(run(s, events).1[i] is OpenTransport),
    decreases events.len(),
{
    if events.len() > 0 {
        let earlier = events.drop_last();
        law_an_ended_connection_awaits_the_caller(s, earlier);
    }
}

/// Whatever ends a connection leaves it disconnected: a failure is surfaced
/// only on the step that takes the connection from connecting or connected
/// to disconnected.
pub proof fn law_a_surfaced_failure_ends_the_connection(s: State, event: Event)
    ensures
        next(s, event).1 is Fail ==> (s.phase is Connecting || s.phase is Connected) && next(
            s,
            event,
        ).0.phase is Disconnected,
        next(s, event).1 matches ActionView::Fail(error) ==> error.concerns_connection(),
        next(s, event).1 matches ActionView::Report(error) ==> !error.concerns_connection(),
{
}

/// A failure that concerns one unit leaves the connection as it stands: after
/// a malformed unit only the time of the last arrival has changed, after a
/// fault of the handler nothing has, and both are reported.
pub proof fn law_unit_failures_are_reported_and_isolated(s: State, now: u64, cause: String)
    ensures
        next(s, Event::HandlerFailed { cause }) == (
            s,
            ActionView::Report(Error::HandlerError(cause)),
        ),
        s.phase is Connected ==> next(
            s,
            Event::Received { now, unit: Unit::Undecodable(cause) },
        ) == (State { since: now, ..s }, ActionView::Report(Error::DecodeError(cause))),
{
}

/// A rejected access token ends the connection at once, whatever the policy
/// bears: the rejection is surfaced and no new attempt is asked for.
pub proof fn law_rejection_is_not_retried(s: State, cause: String)
    requires
        s.phase is Connecting || s.phase is Connected,
    ensures
        next(s, Event::Unauthorized { cause }) == (
            State { phase: Phase::Disconnected, ..s },
            ActionView::Fail(Error::AuthError(cause)),
        ),
{
}

/// A message is handed to the handler only while the connection stands, and
/// only when a decoded message has arrived.
pub proof fn law_delivery_needs_a_standing_connection(s: State, event: Event)
    ensures
        next(s, event).1 is Deliver ==> s.phase is Connected && event matches Event::Received {
            unit: Unit::Decoded(_),
            ..
        },
{
}

/// No event changes the policy of a connection.
pub proof fn law_policy_is_kept(s: State, event: Event)
    ensures
        next(s, event).0.policy == s.policy,
{
}

} // verus!
