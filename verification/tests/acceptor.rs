//! The connection acceptor.

use simple_socks5_proxy_core::socks5::acceptor::{AcceptAction, AcceptEvent, Acceptor, Fatal};

const EVENTS: [AcceptEvent; 5] = [
    AcceptEvent::Bound,
    AcceptEvent::BindFailed,
    AcceptEvent::Accepted,
    AcceptEvent::AcceptFailed,
    AcceptEvent::ListenerFailed,
];

#[test]
fn a_new_acceptor_binds_first() {
    assert_eq!(Acceptor::new(), Acceptor::Binding);
    assert!(!Acceptor::new().is_listening());
    assert_eq!(Acceptor::new().step(AcceptEvent::Bound), (Acceptor::Listening, AcceptAction::Listen));
    assert!(Acceptor::Listening.is_listening());
}

#[test]
fn bind_failure_is_fatal() {
    assert_eq!(
        Acceptor::new().step(AcceptEvent::BindFailed),
        (Acceptor::Stopped(Fatal::BindFailed), AcceptAction::Abort(Fatal::BindFailed))
    );
}

#[test]
fn nothing_is_accepted_before_the_address_is_bound() {
    for event in [AcceptEvent::Accepted, AcceptEvent::AcceptFailed, AcceptEvent::ListenerFailed] {
        assert_eq!(Acceptor::Binding.step(event), (Acceptor::Binding, AcceptAction::Continue));
    }
}

#[test]
fn every_accepted_connection_is_spawned() {
    assert_eq!(
        Acceptor::Listening.step(AcceptEvent::Accepted),
        (Acceptor::Listening, AcceptAction::Spawn)
    );
}

#[test]
fn one_failed_accept_does_not_stop_the_loop() {
    let mut acceptor = Acceptor::Listening;
    let mut spawned = 0;
    let mut logged = 0;
    for round in 0..100 {
        let event = if round % 3 == 0 { AcceptEvent::AcceptFailed } else { AcceptEvent::Accepted };
        let (next, action) = acceptor.step(event);
        acceptor = next;
        match action {
            AcceptAction::Spawn => spawned += 1,
            AcceptAction::LogAndContinue => logged += 1,
            other => panic!("unexpected action {other:?}"),
        }
        assert!(acceptor.is_listening());
    }
    assert_eq!(spawned, 66);
    assert_eq!(logged, 34);
}

#[test]
fn listener_failure_stops_the_acceptor_for_good() {
    let (mut acceptor, action) = Acceptor::Listening.step(AcceptEvent::ListenerFailed);
    assert_eq!(acceptor, Acceptor::Stopped(Fatal::ListenerFailed));
    assert_eq!(action, AcceptAction::Abort(Fatal::ListenerFailed));
    for event in EVENTS {
        let (next, action) = acceptor.step(event);
        acceptor = next;
        assert_eq!(action, AcceptAction::Continue);
        assert_eq!(acceptor, Acceptor::Stopped(Fatal::ListenerFailed));
        assert!(!acceptor.is_listening());
    }
}

#[test]
fn a_listening_acceptor_ignores_binding_reports() {
    for event in [AcceptEvent::Bound, AcceptEvent::BindFailed] {
        assert_eq!(Acceptor::Listening.step(event), (Acceptor::Listening, AcceptAction::Continue));
    }
}

#[test]
fn spawns_match_accepted_connections_in_every_short_run() {
    fn walk(state: Acceptor, accepted: usize, spawned: usize, depth: usize) {
        if depth == 0 {
            return;
        }
        for event in EVENTS {
            let (next, action) = state.step(event);
            let counted = state == Acceptor::Listening && event == AcceptEvent::Accepted;
            let accepted = accepted + usize::from(counted);
            let spawned = spawned + usize::from(action == AcceptAction::Spawn);
            assert_eq!(accepted, spawned);
            if matches!(state, Acceptor::Stopped(_)) {
                assert_eq!(next, state);
                assert_eq!(action, AcceptAction::Continue);
            }
            walk(next, accepted, spawned, depth - 1);
        }
    }
    walk(Acceptor::new(), 0, 0, 5);
}
