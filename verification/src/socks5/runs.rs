//! Whole runs of the dispatcher, and what holds of every one of them.
//!
//! A run is the sequence of events that the caller reports for one
//! connection. The dispatcher answers each event with one action, so a run
//! of `n` events yields `n` actions.

use super::{reply_issued, transition, ActionView, ConnectionView, EventView};
use crate::address::{unspecified_target, Target};
use crate::protocol::{Command, ReplyCode};
use crate::transport::request_for;
use vstd::prelude::*;

verus! {

/// The state reached from `state` by `events`, and the actions answered on
/// the way.
pub open spec fn run(state: ConnectionView, events: Seq<EventView>) -> (
    ConnectionView,
    Seq<ActionView>,
)
    decreases events.len(),
{
    if events.len() == 0 {
        (state, Seq::empty())
    } else {
        let (before, actions) = run(state, events.drop_last());
        let (after, action) = transition(before, events.last());
        (after, actions.push(action))
    }
}

/// The state of a freshly accepted connection after `events`.
pub open spec fn state_after(events: Seq<EventView>) -> ConnectionView {
    run(ConnectionView::AwaitingHandshake, events).0
}

/// The actions answered to `events` on a freshly accepted connection.
pub open spec fn actions_of(events: Seq<EventView>) -> Seq<ActionView> {
    run(ConnectionView::AwaitingHandshake, events).1
}

/// An action that ends the connection: a shutdown or a plain release.
pub open spec fn is_closing(action: ActionView) -> bool {
    action is ShutdownClient || action is ShutdownBoth || action is Close
}

/// An event that ends a connection before any request has been read.
pub open spec fn is_early_failure(event: EventView) -> bool {
    event is HandshakeFailed || event is RequestFailed
}

/// A CONNECT request.
pub open spec fn is_connect_request(event: EventView) -> bool {
    event matches EventView::Request(command, _) && command == Command::Connect
}

/// How many replies `actions` send.
pub open spec fn replies_in(actions: Seq<ActionView>) -> nat
    decreases actions.len(),
{
    if actions.len() == 0 {
        0
    } else {
        replies_in(actions.drop_last()) + if actions.last() is SendReply {
            1nat
        } else {
            0nat
        }
    }
}

/// How many streams `actions` ask of the tunnel session.
pub open spec fn stream_requests_in(actions: Seq<ActionView>) -> nat
    decreases actions.len(),
{
    if actions.len() == 0 {
        0
    } else {
        stream_requests_in(actions.drop_last()) + if actions.last() is CreateStream {
            1nat
        } else {
            0nat
        }
    }
}

/// How many relays `actions` start.
pub open spec fn relays_in(actions: Seq<ActionView>) -> nat
    decreases actions.len(),
{
    if actions.len() == 0 {
        0
    } else {
        relays_in(actions.drop_last()) + if actions.last() is StartRelay {
            1nat
        } else {
            0nat
        }
    }
}

/// How many times `actions` end the connection.
pub open spec fn closings_in(actions: Seq<ActionView>) -> nat
    decreases actions.len(),
{
    if actions.len() == 0 {
        0
    } else {
        closings_in(actions.drop_last()) + if is_closing(actions.last()) {
            1nat
        } else {
            0nat
        }
    }
}

/// Whether a stream has been asked of the tunnel session by the time a
/// connection is in this state.
pub open spec fn stream_requested(state: ConnectionView) -> bool {
    state is Connecting || reply_issued(state) == Some(ReplyCode::Succeeded) || reply_issued(state)
        == Some(ReplyCode::HostUnreachable)
}

/// Every event is answered with one action, and the run of a prefix is a
/// prefix of the run.
pub proof fn lemma_run_prefix(state: ConnectionView, events: Seq<EventView>, n: int)
    requires
        0 <= n <= events.len(),
    ensures
        run(state, events).1.len() == events.len(),
        run(state, events.take(n)).1 == run(state, events).1.take(n),
    decreases events.len(),
{
    if events.len() == 0 {
        assert(events.take(n) =~= events);
        assert(run(state, events).1.take(n) =~= run(state, events).1);
    } else {
        let shorter = events.drop_last();
        if n == events.len() {
            lemma_run_prefix(state, shorter, n - 1);
            assert(events.take(n) =~= events);
            assert(run(state, events).1.take(n) =~= run(state, events).1);
        } else {
            lemma_run_prefix(state, shorter, n);
            assert(shorter.take(n) =~= events.take(n));
            assert(run(state, events).1.take(n) =~= run(state, shorter).1.take(n));
        }
    }
}

/// A run can be cut in two: the second part starts where the first ended.
pub proof fn lemma_run_split(state: ConnectionView, first: Seq<EventView>, second: Seq<EventView>)
    ensures
        run(state, first + second).0 == run(run(state, first).0, second).0,
        run(state, first + second).1 == run(state, first).1 + run(run(state, first).0, second).1,
    decreases second.len(),
{
    if second.len() == 0 {
        assert(first + second =~= first);
        assert(run(state, first).1 + Seq::<ActionView>::empty() =~= run(state, first).1);
    } else {
        lemma_run_split(state, first, second.drop_last());
        assert((first + second).drop_last() =~= first + second.drop_last());
        assert((first + second).last() == second.last());
        let middle = run(state, first).0;
        let (before, actions) = run(middle, second.drop_last());
        let action = transition(before, second.last()).1;
        assert(run(state, first).1 + actions.push(action) =~= (run(state, first).1 + actions).push(
            action,
        ));
    }
}

/// What the counts of a run are, whatever state it starts in: a reply is
/// sent exactly when a reply code is decided, a stream is asked for exactly
/// when a CONNECT is taken up, and the connection is ended exactly when it
/// becomes closed.
pub proof fn lemma_run_counts(state: ConnectionView, events: Seq<EventView>)
    ensures
        ({
            let (last, actions) = run(state, events);
            &&& replies_in(actions) == if reply_issued(state) is None && reply_issued(last) is Some {
                1nat
            } else {
                0nat
            }
            &&& stream_requests_in(actions) == if !stream_requested(state) && stream_requested(
                last,
            ) {
                1nat
            } else {
                0nat
            }
            &&& closings_in(actions) == if !(state is Closed) && last is Closed {
                1nat
            } else {
                0nat
            }
            &&& relays_in(actions) <= 1
            &&& relays_in(actions) == 1 ==> (last is Relaying || last == ConnectionView::Closed(
                Some(ReplyCode::Succeeded),
            )) && !(state is Relaying) && !(state is Closed)
            &&& last is Relaying && !(state is Relaying) ==> relays_in(actions) == 1
            &&& reply_issued(state) is Some ==> reply_issued(last) == reply_issued(state)
            &&& stream_requested(state) ==> stream_requested(last)
            &&& state is Closed ==> last == state
            &&& state is Relaying ==> last is Relaying || last == ConnectionView::Closed(
                Some(ReplyCode::Succeeded),
            )
        }),
    decreases events.len(),
{
    if events.len() == 0 {
    } else {
        lemma_run_counts(state, events.drop_last());
        let (before, actions) = run(state, events.drop_last());
        let (after, action) = transition(before, events.last());
        assert(actions.push(action).drop_last() =~= actions);
        assert(actions.push(action).last() == action);
    }
}

/// Exactly one reply per connection: a run never sends a second reply, and
/// it has sent one exactly when the connection has come to a reply code.
pub proof fn lemma_at_most_one_reply(events: Seq<EventView>)
    ensures
        replies_in(actions_of(events)) <= 1,
        replies_in(actions_of(events)) == 1 <==> reply_issued(state_after(events)) is Some,
{
    lemma_run_counts(ConnectionView::AwaitingHandshake, events);
}

/// A connection is over without a reply only if its handshake or its
/// request failed: every other connection that is over has had its one
/// reply.
pub proof fn lemma_closed_means_replied(events: Seq<EventView>)
    requires
        state_after(events) is Closed,
        forall|i: int| 0 <= i < events.len() ==> !is_early_failure(#[trigger] events[i]),
    ensures
        replies_in(actions_of(events)) == 1,
{
    lemma_run_counts(ConnectionView::AwaitingHandshake, events);
    lemma_no_early_failure(events);
}

proof fn lemma_no_early_failure(events: Seq<EventView>)
    requires
        forall|i: int| 0 <= i < events.len() ==> !is_early_failure(#[trigger] events[i]),
    ensures
        state_after(events) != ConnectionView::Closed(None),
    decreases events.len(),
{
    if events.len() > 0 {
        let shorter = events.drop_last();
        assert forall|i: int| 0 <= i < shorter.len() implies !is_early_failure(
            #[trigger] shorter[i],
        ) by {
            assert(shorter[i] == events[i]);
        }
        lemma_no_early_failure(shorter);
        assert(!is_early_failure(events[events.len() - 1]));
    }
}

/// The reply comes first: when a relay is started or the connection is shut
/// down, the one reply has already been sent. The same holds when the
/// connection is released without a shutdown, unless it is released because
/// the handshake or the request failed.
pub proof fn lemma_reply_comes_first(events: Seq<EventView>, i: int)
    requires
        0 <= i < events.len(),
        actions_of(events)[i] is StartRelay || is_closing(actions_of(events)[i]),
        !is_early_failure(events[i]),
    ensures
        replies_in(actions_of(events).take(i)) == 1,
{
    let start = ConnectionView::AwaitingHandshake;
    lemma_run_prefix(start, events, i);
    lemma_run_prefix(start, events, i + 1);
    lemma_run_counts(start, events.take(i));
    let upto = events.take(i + 1);
    assert(upto.drop_last() =~= events.take(i));
    assert(upto.last() == events[i]);
    let (before, actions) = run(start, events.take(i));
    let (after, action) = transition(before, events[i]);
    assert(run(start, upto).1 == actions.push(action));
    assert(actions_of(events).take(i + 1)[i] == actions_of(events)[i]);
    assert(actions.push(action)[i] == action);
}

/// A CONNECT whose stream is created is answered `Succeeded` with the
/// address the client asked for, and its relay begins.
pub proof fn lemma_connect_served(target: Target)
    ensures
        run(
            ConnectionView::AwaitingRequest,
            seq![
                EventView::Request(Command::Connect, target),
                EventView::StreamOpened,
                EventView::ReplySent,
            ],
        ) == (
            ConnectionView::Relaying { client_done: false, tunnel_done: false },
            seq![
                ActionView::CreateStream(request_for(target)),
                ActionView::SendReply(ReplyCode::Succeeded, target),
                ActionView::StartRelay,
            ],
        ),
{
    let events = seq![
        EventView::Request(Command::Connect, target),
        EventView::StreamOpened,
        EventView::ReplySent,
    ];
    let two = seq![EventView::Request(Command::Connect, target), EventView::StreamOpened];
    let one = seq![EventView::Request(Command::Connect, target)];
    assert(events.drop_last() =~= two);
    assert(two.drop_last() =~= one);
    assert(one.drop_last() =~= Seq::<EventView>::empty());
    reveal_with_fuel(run, 4);
    assert(run(ConnectionView::AwaitingRequest, events).1 =~= seq![
        ActionView::CreateStream(request_for(target)),
        ActionView::SendReply(ReplyCode::Succeeded, target),
        ActionView::StartRelay,
    ]);
}

/// A CONNECT whose stream cannot be created is answered `HostUnreachable`
/// with the unspecified address and shut down; whatever is reported after
/// the failure, no relay is ever started.
pub proof fn lemma_connect_refused(target: Target, later: Seq<EventView>)
    ensures
        run(
            ConnectionView::AwaitingRequest,
            seq![
                EventView::Request(Command::Connect, target),
                EventView::StreamFailed,
                EventView::ReplySent,
            ],
        ) == (
            ConnectionView::Closed(Some(ReplyCode::HostUnreachable)),
            seq![
                ActionView::CreateStream(request_for(target)),
                ActionView::SendReply(ReplyCode::HostUnreachable, unspecified_target()),
                ActionView::ShutdownClient,
            ],
        ),
        relays_in(
            run(
                ConnectionView::AwaitingRequest,
                seq![EventView::Request(Command::Connect, target), EventView::StreamFailed] + later,
            ).1,
        ) == 0,
{
    let events = seq![
        EventView::Request(Command::Connect, target),
        EventView::StreamFailed,
        EventView::ReplySent,
    ];
    let two = seq![EventView::Request(Command::Connect, target), EventView::StreamFailed];
    let one = seq![EventView::Request(Command::Connect, target)];
    assert(events.drop_last() =~= two);
    assert(two.drop_last() =~= one);
    assert(one.drop_last() =~= Seq::<EventView>::empty());
    reveal_with_fuel(run, 4);
    assert(run(ConnectionView::AwaitingRequest, events).1 =~= seq![
        ActionView::CreateStream(request_for(target)),
        ActionView::SendReply(ReplyCode::HostUnreachable, unspecified_target()),
        ActionView::ShutdownClient,
    ]);
    let start = ConnectionView::AwaitingRequest;
    assert(run(start, two).0 == ConnectionView::Replying(ReplyCode::HostUnreachable));
    lemma_run_split(start, two, later);
    lemma_run_counts(start, two + later);
    lemma_run_counts(run(start, two).0, later);
}

/// A BIND or a UDP ASSOCIATE is answered `CommandNotSupported` with the
/// unspecified address; whatever is reported afterwards, no stream is ever
/// asked of the tunnel session, no relay is started, and no other reply is
/// sent.
pub proof fn lemma_unsupported_command_refused(
    command: Command,
    target: Target,
    later: Seq<EventView>,
)
    requires
        command != Command::Connect,
    ensures
        ({
            let (last, actions) = run(
                ConnectionView::AwaitingRequest,
                seq![EventView::Request(command, target)] + later,
            );
            &&& actions[0] == ActionView::SendReply(
                ReplyCode::CommandNotSupported,
                unspecified_target(),
            )
            &&& reply_issued(last) == Some(ReplyCode::CommandNotSupported)
            &&& replies_in(actions) == 1
            &&& stream_requests_in(actions) == 0
            &&& relays_in(actions) == 0
        }),
{
    let start = ConnectionView::AwaitingRequest;
    let one = seq![EventView::Request(command, target)];
    assert(one.drop_last() =~= Seq::<EventView>::empty());
    reveal_with_fuel(run, 2);
    assert(run(start, one).0 == ConnectionView::Replying(ReplyCode::CommandNotSupported));
    assert(run(start, one).1 =~= seq![
        ActionView::SendReply(ReplyCode::CommandNotSupported, unspecified_target()),
    ]);
    lemma_run_split(start, one, later);
    lemma_run_counts(start, one + later);
    lemma_run_counts(run(start, one).0, later);
}

/// A stream is asked of the tunnel session at most once per connection, and
/// only for a CONNECT request; a relay is started at most once, and only
/// after a reply `Succeeded`.
pub proof fn lemma_streams_only_for_connect(events: Seq<EventView>)
    ensures
        stream_requests_in(actions_of(events)) <= 1,
        stream_requests_in(actions_of(events)) == 1 ==> exists|i: int|
            0 <= i < events.len() && is_connect_request(#[trigger] events[i]),
        relays_in(actions_of(events)) <= 1,
        relays_in(actions_of(events)) == 1 ==> reply_issued(state_after(events)) == Some(
            ReplyCode::Succeeded,
        ),
    decreases events.len(),
{
    let start = ConnectionView::AwaitingHandshake;
    lemma_run_counts(start, events);
    if events.len() > 0 {
        let shorter = events.drop_last();
        lemma_streams_only_for_connect(shorter);
        lemma_run_counts(start, shorter);
        let (before, actions) = run(start, shorter);
        let (after, action) = transition(before, events.last());
        assert(actions.push(action).drop_last() =~= actions);
        if stream_requests_in(actions_of(events)) == 1 {
            if stream_requests_in(actions) == 1 {
                let i = choose|i: int|
                    0 <= i < shorter.len() && is_connect_request(#[trigger] shorter[i]);
                assert(is_connect_request(events[i]));
            } else {
                assert(action is CreateStream);
                assert(is_connect_request(events[events.len() - 1]));
            }
        }
    }
}

/// Ending is done once: over a whole run the connection is shut down or
/// released at most once, and exactly once if the run leaves it closed.
pub proof fn lemma_closed_once(events: Seq<EventView>)
    ensures
        closings_in(actions_of(events)) <= 1,
        closings_in(actions_of(events)) == 1 <==> state_after(events) is Closed,
{
    lemma_run_counts(ConnectionView::AwaitingHandshake, events);
}

/// Ending a relay shuts both ends down exactly once. Whatever is reported
/// while relaying, the caller is told to shut down at most once, and exactly
/// once if the relay has ended; this shutdown is always the one of both
/// ends. When both directions finish one after the other, in either order,
/// the second report is the one that ends the relay.
pub proof fn lemma_relay_ends_once(client_done: bool, tunnel_done: bool, events: Seq<EventView>)
    requires
        !(client_done && tunnel_done),
    ensures
        ({
            let (last, actions) = run(
                ConnectionView::Relaying { client_done, tunnel_done },
                events,
            );
            &&& closings_in(actions) <= 1
            &&& closings_in(actions) == 1 <==> last is Closed
            &&& forall|i: int|
                0 <= i < actions.len() && is_closing(#[trigger] actions[i]) ==> actions[i]
                    is ShutdownBoth
        }),
        run(
            ConnectionView::Relaying { client_done: false, tunnel_done: false },
            seq![EventView::ClientFinished, EventView::TunnelFinished],
        ).1 == seq![ActionView::Continue, ActionView::ShutdownBoth],
        run(
            ConnectionView::Relaying { client_done: false, tunnel_done: false },
            seq![EventView::TunnelFinished, EventView::ClientFinished],
        ).1 == seq![ActionView::Continue, ActionView::ShutdownBoth],
{
    let start = ConnectionView::Relaying { client_done, tunnel_done };
    lemma_run_counts(start, events);
    lemma_relay_closings(start, events);
    let fresh = ConnectionView::Relaying { client_done: false, tunnel_done: false };
    let client_first = seq![EventView::ClientFinished, EventView::TunnelFinished];
    let tunnel_first = seq![EventView::TunnelFinished, EventView::ClientFinished];
    assert(client_first.drop_last() =~= seq![EventView::ClientFinished]);
    assert(tunnel_first.drop_last() =~= seq![EventView::TunnelFinished]);
    assert(seq![EventView::ClientFinished].drop_last() =~= Seq::<EventView>::empty());
    assert(seq![EventView::TunnelFinished].drop_last() =~= Seq::<EventView>::empty());
    reveal_with_fuel(run, 3);
    assert(run(fresh, client_first).1 =~= seq![ActionView::Continue, ActionView::ShutdownBoth]);
    assert(run(fresh, tunnel_first).1 =~= seq![ActionView::Continue, ActionView::ShutdownBoth]);
}

proof fn lemma_relay_closings(state: ConnectionView, events: Seq<EventView>)
    requires
        state is Relaying,
    ensures
        ({
            let (last, actions) = run(state, events);
            &&& last is Relaying || last is Closed
            &&& forall|i: int|
                0 <= i < actions.len() && is_closing(#[trigger] actions[i]) ==> actions[i]
                    is ShutdownBoth
        }),
    decreases events.len(),
{
    if events.len() > 0 {
        lemma_relay_closings(state, events.drop_last());
    }
}

} // verus!
