//! The connection acceptor: what to do with each outcome of binding the
//! listening address and of accepting on it.
//!
//! One failed accept must not stop the proxy. Only a failure of the
//! listener itself ends the loop, and that is fatal to the process.

use vstd::prelude::*;

verus! {

/// Why the acceptor stopped.
#[derive(Clone, Copy, Debug, PartialEq, Eq, Structural)]
pub enum Fatal {
    /// The listening address could not be bound.
    BindFailed,
    /// The listening socket itself became unusable.
    ListenerFailed,
}

/// Where the acceptor stands.
#[derive(Clone, Copy, Debug, PartialEq, Eq, Structural)]
pub enum Acceptor {
    /// The listening address is being bound.
    Binding,
    /// Connections are being accepted.
    Listening,
    /// The acceptor has stopped for good.
    Stopped(Fatal),
}

/// What the caller reports.
#[derive(Clone, Copy, Debug, PartialEq, Eq, Structural)]
pub enum AcceptEvent {
    /// The listening address was bound.
    Bound,
    /// The listening address could not be bound.
    BindFailed,
    /// A connection was accepted.
    Accepted,
    /// One accept failed; the listener is still good.
    AcceptFailed,
    /// The listening socket itself is no longer valid.
    ListenerFailed,
}

/// What the caller has to do next.
#[derive(Clone, Copy, Debug, PartialEq, Eq, Structural)]
pub enum AcceptAction {
    /// Start accepting.
    Listen,
    /// Hand the accepted connection to a dispatcher of its own, scheduled
    /// independently, and go on accepting.
    Spawn,
    /// Log the failure and go on accepting.
    LogAndContinue,
    /// Stop: the failure is fatal to the process.
    Abort(Fatal),
    /// Nothing changes.
    Continue,
}

/// The acceptor's transition function. An event that the state does not
/// wait for changes nothing; a stopped acceptor never spawns again.
pub open spec fn accept_transition(state: Acceptor, event: AcceptEvent) -> (
    Acceptor,
    AcceptAction,
) {
    match (state, event) {
        (Acceptor::Binding, AcceptEvent::Bound) => (Acceptor::Listening, AcceptAction::Listen),
        (Acceptor::Binding, AcceptEvent::BindFailed) => (
            Acceptor::Stopped(Fatal::BindFailed),
            AcceptAction::Abort(Fatal::BindFailed),
        ),
        (Acceptor::Listening, AcceptEvent::Accepted) => (Acceptor::Listening, AcceptAction::Spawn),
        (Acceptor::Listening, AcceptEvent::AcceptFailed) => (
            Acceptor::Listening,
            AcceptAction::LogAndContinue,
        ),
        (Acceptor::Listening, AcceptEvent::ListenerFailed) => (
            Acceptor::Stopped(Fatal::ListenerFailed),
            AcceptAction::Abort(Fatal::ListenerFailed),
        ),
        (state, _) => (state, AcceptAction::Continue),
    }
}

impl Acceptor {
    /// An acceptor that is about to bind its listening address.
    pub fn new() -> (acceptor: Acceptor)
        ensures
            acceptor == Acceptor::Binding,
    {
        Acceptor::Binding
    }

    /// Whether connections are being accepted.
    pub fn is_listening(&self) -> (listening: bool)
        ensures
            listening == (*self == Acceptor::Listening),
    {
        match self {
            Acceptor::Listening => true,
            _ => false,
        }
    }

    /// Takes the acceptor one event further and says what to do next.
    pub fn step(self, event: AcceptEvent) -> (next: (Acceptor, AcceptAction))
        ensures
            next == accept_transition(self, event),
    {
        match self {
            Acceptor::Binding => match event {
                AcceptEvent::Bound => (Acceptor::Listening, AcceptAction::Listen),
                AcceptEvent::BindFailed => (
                    Acceptor::Stopped(Fatal::BindFailed),
                    AcceptAction::Abort(Fatal::BindFailed),
                ),
                _ => (self, AcceptAction::Continue),
            },
            Acceptor::Listening => match event {
                AcceptEvent::Accepted => (Acceptor::Listening, AcceptAction::Spawn),
                AcceptEvent::AcceptFailed => (Acceptor::Listening, AcceptAction::LogAndContinue),
                AcceptEvent::ListenerFailed => (
                    Acceptor::Stopped(Fatal::ListenerFailed),
                    AcceptAction::Abort(Fatal::ListenerFailed),
                ),
                _ => (self, AcceptAction::Continue),
            },
            Acceptor::Stopped(_) => (self, AcceptAction::Continue),
        }
    }
}

/// The state reached from `state` by `events`, and the actions answered on
/// the way.
pub open spec fn accept_run(state: Acceptor, events: Seq<AcceptEvent>) -> (
    Acceptor,
    Seq<AcceptAction>,
)
    decreases events.len(),
{
    if events.len() == 0 {
        (state, Seq::empty())
    } else {
        let (before, actions) = accept_run(state, events.drop_last());
        let (after, action) = accept_transition(before, events.last());
        (after, actions.push(action))
    }
}

/// How many connections `events` report as accepted.
pub open spec fn accepted_in(events: Seq<AcceptEvent>) -> nat
    decreases events.len(),
{
    if events.len() == 0 {
        0
    } else {
        accepted_in(events.drop_last()) + if events.last() == AcceptEvent::Accepted {
            1nat
        } else {
            0nat
        }
    }
}

/// How many dispatchers `actions` spawn.
pub open spec fn spawns_in(actions: Seq<AcceptAction>) -> nat
    decreases actions.len(),
{
    if actions.len() == 0 {
        0
    } else {
        spawns_in(actions.drop_last()) + if actions.last() == AcceptAction::Spawn {
            1nat
        } else {
            0nat
        }
    }
}

/// Faults of single accepts are isolated: as long as the listener itself
/// does not fail, a listening acceptor goes on listening whatever else is
/// reported, and it spawns one dispatcher for every accepted connection.
pub proof fn lemma_accept_failures_are_survived(events: Seq<AcceptEvent>)
    requires
        forall|i: int| 0 <= i < events.len() ==> #[trigger] events[i] != AcceptEvent::ListenerFailed,
    ensures
        accept_run(Acceptor::Listening, events).0 == Acceptor::Listening,
        spawns_in(accept_run(Acceptor::Listening, events).1) == accepted_in(events),
    decreases events.len(),
{
    if events.len() > 0 {
        let shorter = events.drop_last();
        assert forall|i: int| 0 <= i < shorter.len() implies #[trigger] shorter[i]
            != AcceptEvent::ListenerFailed by {
            assert(shorter[i] == events[i]);
        }
        lemma_accept_failures_are_survived(shorter);
        assert(events[events.len() - 1] != AcceptEvent::ListenerFailed);
        let (before, actions) = accept_run(Acceptor::Listening, shorter);
        let action = accept_transition(before, events.last()).1;
        assert(actions.push(action).drop_last() =~= actions);
    }
}

/// Once stopped, the acceptor stays stopped and spawns nothing more.
pub proof fn lemma_stopped_is_final(reason: Fatal, events: Seq<AcceptEvent>)
    ensures
        accept_run(Acceptor::Stopped(reason), events).0 == Acceptor::Stopped(reason),
        spawns_in(accept_run(Acceptor::Stopped(reason), events).1) == 0,
    decreases events.len(),
{
    if events.len() > 0 {
        lemma_stopped_is_final(reason, events.drop_last());
        let (before, actions) = accept_run(Acceptor::Stopped(reason), events.drop_last());
        let action = accept_transition(before, events.last()).1;
        assert(actions.push(action).drop_last() =~= actions);
    }
}

} // verus!
