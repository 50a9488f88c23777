//! Whole runs of the session's set-up, and what holds of every one of them.

use super::{
    is_over, serves, session_start, session_transition, SessionActionView, SessionError,
    SessionEvent, SshSessionConfigView, SshSessionView,
};
use vstd::prelude::*;

verus! {

/// The state reached from `state` by `events`, and the actions answered on
/// the way.
pub open spec fn session_run(state: SshSessionView, events: Seq<SessionEvent>) -> (
    SshSessionView,
    Seq<SessionActionView>,
)
    decreases events.len(),
{
    if events.len() == 0 {
        (state, Seq::empty())
    } else {
        let (before, actions) = session_run(state, events.drop_last());
        let (after, action) = session_transition(before, events.last());
        (after, actions.push(action))
    }
}

/// The run of a session that was started from `config`.
pub open spec fn setup_run(config: SshSessionConfigView, events: Seq<SessionEvent>) -> (
    SshSessionView,
    Seq<SessionActionView>,
) {
    session_run(session_start(config).0, events)
}

/// An action that presents a credential to the server or prepares one.
pub open spec fn uses_private_key(action: SessionActionView) -> bool {
    action is LoadKey || action is AuthenticatePublicKey
}

/// While a session is still connecting, it holds the credentials it was
/// started with.
proof fn lemma_credentials_are_kept(config: SshSessionConfigView, events: Seq<SessionEvent>)
    ensures
        setup_run(config, events).0 is Connecting ==> setup_run(config, events).0
            == session_start(config).0,
        setup_run(config, events).1.len() == events.len(),
    decreases events.len(),
{
    if events.len() > 0 {
        lemma_credentials_are_kept(config, events.drop_last());
    }
}

/// A private key comes first: a session that was given one never tries the
/// password, whatever is reported.
pub proof fn lemma_private_key_comes_first(config: SshSessionConfigView, events: Seq<SessionEvent>)
    requires
        config.secret_key_path is Some,
    ensures
        forall|i: int|
            0 <= i < events.len() ==> !(#[trigger] setup_run(config, events).1[i]
                is AuthenticatePassword),
    decreases events.len(),
{
    if events.len() > 0 {
        lemma_private_key_comes_first(config, events.drop_last());
        lemma_credentials_are_kept(config, events.drop_last());
    }
}

/// Without a private key the password is the only credential: the key is
/// never loaded nor used. Without a password either, no credential is ever
/// presented and the session is never ready.
pub proof fn lemma_password_is_required(config: SshSessionConfigView, events: Seq<SessionEvent>)
    requires
        config.secret_key_path is None,
    ensures
        forall|i: int|
            0 <= i < events.len() ==> !uses_private_key(#[trigger] setup_run(config, events).1[i]),
        config.password is None ==> !serves(setup_run(config, events).0)
            && !(setup_run(config, events).0 is Authenticating) && forall|i: int|
            0 <= i < events.len() ==> !(#[trigger] setup_run(config, events).1[i]
                is AuthenticatePassword),
        !(setup_run(config, events).0 is LoadingKey),
    decreases events.len(),
{
    if events.len() > 0 {
        lemma_password_is_required(config, events.drop_last());
        lemma_credentials_are_kept(config, events.drop_last());
    }
}

/// With neither a private key nor a password, the session fails with
/// `MissingCredential` as soon as the server is connected.
pub proof fn lemma_missing_credential(config: SshSessionConfigView)
    requires
        config.secret_key_path is None,
        config.password is None,
    ensures
        setup_run(config, seq![SessionEvent::Connected]) == (
            SshSessionView::Failed(SessionError::MissingCredential),
            seq![SessionActionView::Fail(SessionError::MissingCredential)],
        ),
{
    let events = seq![SessionEvent::Connected];
    assert(events.drop_last() =~= Seq::<SessionEvent>::empty());
    reveal_with_fuel(session_run, 2);
    assert(setup_run(config, events).1 =~= seq![
        SessionActionView::Fail(SessionError::MissingCredential),
    ]);
}

/// A credential that the server rejects fails the session with
/// `AuthenticationFailed`, be it the password or the private key.
pub proof fn lemma_rejected_credential_fails(config: SshSessionConfigView)
    ensures
        config.secret_key_path is None && config.password is Some ==> setup_run(
            config,
            seq![SessionEvent::Connected, SessionEvent::Rejected],
        ) == (
            SshSessionView::Failed(SessionError::AuthenticationFailed),
            seq![
                SessionActionView::AuthenticatePassword {
                    username: config.username,
                    password: config.password->0,
                },
                SessionActionView::Fail(SessionError::AuthenticationFailed),
            ],
        ),
        config.secret_key_path is Some ==> setup_run(
            config,
            seq![SessionEvent::Connected, SessionEvent::KeyLoaded, SessionEvent::Rejected],
        ) == (
            SshSessionView::Failed(SessionError::AuthenticationFailed),
            seq![
                SessionActionView::LoadKey {
                    path: config.secret_key_path->0,
                    passphrase: config.secret_key_password,
                },
                SessionActionView::AuthenticatePublicKey { username: config.username },
                SessionActionView::Fail(SessionError::AuthenticationFailed),
            ],
        ),
{
    let one = seq![SessionEvent::Connected];
    let with_password = seq![SessionEvent::Connected, SessionEvent::Rejected];
    let two = seq![SessionEvent::Connected, SessionEvent::KeyLoaded];
    let with_key = seq![SessionEvent::Connected, SessionEvent::KeyLoaded, SessionEvent::Rejected];
    assert(one.drop_last() =~= Seq::<SessionEvent>::empty());
    assert(with_password.drop_last() =~= one);
    assert(two.drop_last() =~= one);
    assert(with_key.drop_last() =~= two);
    reveal_with_fuel(session_run, 4);
    if config.secret_key_path is None && config.password is Some {
        assert(setup_run(config, with_password).1 =~= seq![
            SessionActionView::AuthenticatePassword {
                username: config.username,
                password: config.password->0,
            },
            SessionActionView::Fail(SessionError::AuthenticationFailed),
        ]);
    }
    if config.secret_key_path is Some {
        assert(setup_run(config, with_key).1 =~= seq![
            SessionActionView::LoadKey {
                path: config.secret_key_path->0,
                passphrase: config.secret_key_password,
            },
            SessionActionView::AuthenticatePublicKey { username: config.username },
            SessionActionView::Fail(SessionError::AuthenticationFailed),
        ]);
    }
}

/// A session is ready only if the server accepted a credential.
pub proof fn lemma_ready_means_accepted(config: SshSessionConfigView, events: Seq<SessionEvent>)
    requires
        serves(setup_run(config, events).0),
    ensures
        exists|i: int| 0 <= i < events.len() && #[trigger] events[i] == SessionEvent::Accepted,
    decreases events.len(),
{
    if events.len() > 0 {
        let shorter = events.drop_last();
        if serves(setup_run(config, shorter).0) {
            lemma_ready_means_accepted(config, shorter);
            let i = choose|i: int|
                0 <= i < shorter.len() && #[trigger] shorter[i] == SessionEvent::Accepted;
            assert(events[i] == SessionEvent::Accepted);
        } else {
            assert(events[events.len() - 1] == SessionEvent::Accepted);
        }
    }
}

/// The end of a session is permanent: once its transport is closed, or its
/// set-up has failed, no report changes its state, and it never serves
/// again.
pub proof fn lemma_over_is_permanent(state: SshSessionView, events: Seq<SessionEvent>)
    requires
        is_over(state),
    ensures
        session_run(state, events).0 == state,
        !serves(session_run(state, events).0),
        forall|i: int|
            0 <= i < events.len() ==> #[trigger] session_run(state, events).1[i]
                == SessionActionView::Continue,
    decreases events.len(),
{
    if events.len() > 0 {
        lemma_over_is_permanent(state, events.drop_last());
        lemma_session_run_length(state, events.drop_last());
    }
}

proof fn lemma_session_run_length(state: SshSessionView, events: Seq<SessionEvent>)
    ensures
        session_run(state, events).1.len() == events.len(),
    decreases events.len(),
{
    if events.len() > 0 {
        lemma_session_run_length(state, events.drop_last());
    }
}

} // verus!
