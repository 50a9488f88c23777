//! Many connections at once.
//!
//! Every accepted connection has a dispatcher of its own, and the events of
//! all of them arrive interleaved in some order. Whatever the order, each
//! dispatcher does exactly what it would do if it were alone.

use super::runs::run;
use super::{transition, ActionView, ConnectionView, EventView};
use crate::address::Target;
use crate::protocol::{Command, ReplyCode};
use crate::transport::request_for;
use vstd::prelude::*;

verus! {

/// The state of connection `id` among `states`. A connection that has not
/// been heard of yet is a freshly accepted one.
pub open spec fn state_of(states: Map<nat, ConnectionView>, id: nat) -> ConnectionView {
    if states.dom().contains(id) {
        states[id]
    } else {
        ConnectionView::AwaitingHandshake
    }
}

/// The states reached from `states` by `events`, each of which names the
/// connection it belongs to, and the actions answered on the way, each with
/// the connection that has to carry it out.
pub open spec fn run_all(states: Map<nat, ConnectionView>, events: Seq<(nat, EventView)>) -> (
    Map<nat, ConnectionView>,
    Seq<(nat, ActionView)>,
)
    decreases events.len(),
{
    if events.len() == 0 {
        (states, Seq::empty())
    } else {
        let (before, actions) = run_all(states, events.drop_last());
        let (id, event) = events.last();
        let (after, action) = transition(state_of(before, id), event);
        (before.insert(id, after), actions.push((id, action)))
    }
}

/// The events of `events` that belong to connection `id`, in their order.
pub open spec fn events_of(events: Seq<(nat, EventView)>, id: nat) -> Seq<EventView>
    decreases events.len(),
{
    if events.len() == 0 {
        Seq::empty()
    } else if events.last().0 == id {
        events_of(events.drop_last(), id).push(events.last().1)
    } else {
        events_of(events.drop_last(), id)
    }
}

/// The actions of `actions` that are for connection `id`, in their order.
pub open spec fn actions_for(actions: Seq<(nat, ActionView)>, id: nat) -> Seq<ActionView>
    decreases actions.len(),
{
    if actions.len() == 0 {
        Seq::empty()
    } else if actions.last().0 == id {
        actions_for(actions.drop_last(), id).push(actions.last().1)
    } else {
        actions_for(actions.drop_last(), id)
    }
}

/// Connections do not interfere: in any interleaving, the state of a
/// connection and the actions it is told to carry out are those of the run
/// of its own events alone.
pub proof fn lemma_connections_are_independent(
    states: Map<nat, ConnectionView>,
    events: Seq<(nat, EventView)>,
    id: nat,
)
    ensures
        state_of(run_all(states, events).0, id) == run(
            state_of(states, id),
            events_of(events, id),
        ).0,
        actions_for(run_all(states, events).1, id) == run(
            state_of(states, id),
            events_of(events, id),
        ).1,
    decreases events.len(),
{
    if events.len() > 0 {
        let shorter = events.drop_last();
        lemma_connections_are_independent(states, shorter, id);
        let (before, actions) = run_all(states, shorter);
        let (other, event) = events.last();
        let (after, action) = transition(state_of(before, other), event);
        assert(actions.push((other, action)).drop_last() =~= actions);
        if other == id {
            let own = events_of(shorter, id);
            assert(own.push(event).drop_last() =~= own);
        }
    }
}

/// Concurrent CONNECT requests each get their own stream: in any
/// interleaving, a fresh connection whose own events are a completed
/// handshake, a CONNECT, a created stream and a written reply asks for the
/// stream to its own target, replies `Succeeded` with its own target, and
/// starts its relay.
pub proof fn lemma_concurrent_connects(events: Seq<(nat, EventView)>, id: nat, target: Target)
    requires
        events_of(events, id) == seq![
            EventView::HandshakeCompleted,
            EventView::Request(Command::Connect, target),
            EventView::StreamOpened,
            EventView::ReplySent,
        ],
    ensures
        actions_for(run_all(Map::empty(), events).1, id) == seq![
            ActionView::ReadRequest,
            ActionView::CreateStream(request_for(target)),
            ActionView::SendReply(ReplyCode::Succeeded, target),
            ActionView::StartRelay,
        ],
        state_of(run_all(Map::empty(), events).0, id) == (ConnectionView::Relaying {
            client_done: false,
            tunnel_done: false,
        }),
{
    lemma_connections_are_independent(Map::empty(), events, id);
    let own = events_of(events, id);
    let three = seq![
        EventView::HandshakeCompleted,
        EventView::Request(Command::Connect, target),
        EventView::StreamOpened,
    ];
    let two = seq![EventView::HandshakeCompleted, EventView::Request(Command::Connect, target)];
    let one = seq![EventView::HandshakeCompleted];
    assert(own.drop_last() =~= three);
    assert(three.drop_last() =~= two);
    assert(two.drop_last() =~= one);
    assert(one.drop_last() =~= Seq::<EventView>::empty());
    reveal_with_fuel(run, 5);
    assert(run(ConnectionView::AwaitingHandshake, own).1 =~= seq![
        ActionView::ReadRequest,
        ActionView::CreateStream(request_for(target)),
        ActionView::SendReply(ReplyCode::Succeeded, target),
        ActionView::StartRelay,
    ]);
}

} // verus!
