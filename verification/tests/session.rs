//! The SSH session: its configuration, its set-up and its streams.

use simple_socks5_proxy_core::transport::ssh::{
    Credentials, DirectTcpIp, SessionAction, SessionError, SessionEvent, SshEventHandler,
    SshSession, SshSessionConfig,
};
use std::path::PathBuf;

fn config(password: Option<&str>, key: Option<&str>, passphrase: Option<&str>) -> SshSessionConfig {
    SshSessionConfig {
        host: "jump.example".to_string(),
        port: 2222,
        username: "alice".to_string(),
        password: password.map(str::to_string),
        secret_key_path: key.map(PathBuf::from),
        secret_key_password: passphrase.map(str::to_string),
        ..SshSessionConfig::default()
    }
}

/// Sets a session up and feeds it `events`; returns the state and a short
/// name of each action.
fn set_up(config: SshSessionConfig, events: &[SessionEvent]) -> (SshSession, Vec<String>) {
    let (mut session, first) = SshSession::new(config);
    let mut seen = vec![name(&first)];
    for event in events {
        let (next, action) = session.step(*event);
        session = next;
        seen.push(name(&action));
    }
    (session, seen)
}

fn name(action: &SessionAction) -> String {
    match action {
        SessionAction::Connect { host, port, .. } => format!("connect {host}:{port}"),
        SessionAction::LoadKey { path, passphrase } => {
            format!("load {} {:?}", path.display(), passphrase)
        }
        SessionAction::AuthenticatePublicKey { username } => format!("publickey {username}"),
        SessionAction::AuthenticatePassword { username, password } => {
            format!("password {username} {password}")
        }
        SessionAction::Finish => "finish".to_string(),
        SessionAction::Fail(error) => format!("fail {error:?}"),
        SessionAction::Continue => "continue".to_string(),
    }
}

#[test]
fn default_config_is_root_on_port_22() {
    let config = SshSessionConfig::default();
    assert_eq!(config.host, "");
    assert_eq!(config.port, 22);
    assert_eq!(config.username, "root");
    assert_eq!(config.password, None);
    assert_eq!(config.secret_key_path, None);
    assert_eq!(config.secret_key_password, None);
}

#[test]
fn every_server_key_is_trusted() {
    let handler = SshEventHandler {};
    assert!(handler.check_server_key("SHA256:abcdef"));
    assert!(handler.check_server_key(""));
}

#[test]
fn wrong_password_fails_authentication() {
    let (session, seen) =
        set_up(config(Some("wrong"), None, None), &[SessionEvent::Connected, SessionEvent::Rejected]);
    assert_eq!(seen, vec![
        "connect jump.example:2222",
        "password alice wrong",
        "fail AuthenticationFailed",
    ]);
    assert!(matches!(session, SshSession::Failed(SessionError::AuthenticationFailed)));
    assert!(!session.is_ready());
    assert!(session.is_closed());
    assert_eq!(
        session.create_stream("example.org".to_string(), 80, "localhost".to_string(), 0),
        Err(SessionError::Closed)
    );
}

#[test]
fn password_is_used_when_there_is_no_key() {
    let (session, seen) =
        set_up(config(Some("secret"), None, None), &[SessionEvent::Connected, SessionEvent::Accepted]);
    assert_eq!(seen, vec!["connect jump.example:2222", "password alice secret", "finish"]);
    assert!(matches!(session, SshSession::Ready));
    assert!(session.is_ready());
    assert!(!session.is_closed());
}

#[test]
fn private_key_comes_before_the_password() {
    let (session, seen) = set_up(
        config(Some("secret"), Some("/home/alice/.ssh/id_ed25519"), Some("phrase")),
        &[SessionEvent::Connected, SessionEvent::KeyLoaded, SessionEvent::Accepted],
    );
    assert_eq!(seen, vec![
        "connect jump.example:2222",
        "load /home/alice/.ssh/id_ed25519 Some(\"phrase\")",
        "publickey alice",
        "finish",
    ]);
    assert!(session.is_ready());
}

#[test]
fn rejected_private_key_fails_authentication() {
    let (session, seen) = set_up(
        config(Some("secret"), Some("id_rsa"), None),
        &[SessionEvent::Connected, SessionEvent::KeyLoaded, SessionEvent::Rejected],
    );
    assert_eq!(seen, vec![
        "connect jump.example:2222",
        "load id_rsa None",
        "publickey alice",
        "fail AuthenticationFailed",
    ]);
    assert!(matches!(session, SshSession::Failed(SessionError::AuthenticationFailed)));
}

#[test]
fn missing_credential_fails_once_connected() {
    let (session, seen) = set_up(config(None, None, Some("unused")), &[SessionEvent::Connected]);
    assert_eq!(seen, vec!["connect jump.example:2222", "fail MissingCredential"]);
    assert!(matches!(session, SshSession::Failed(SessionError::MissingCredential)));
    assert!(session.is_closed());
}

#[test]
fn outside_failures_fail_the_session() {
    let (session, seen) = set_up(config(Some("secret"), None, None), &[SessionEvent::ConnectFailed]);
    assert_eq!(seen[1], "fail ConnectFailed");
    assert!(matches!(session, SshSession::Failed(SessionError::ConnectFailed)));

    let (session, seen) = set_up(
        config(None, Some("id_rsa"), None),
        &[SessionEvent::Connected, SessionEvent::KeyFailed],
    );
    assert_eq!(seen[2], "fail KeyFailed");
    assert!(matches!(session, SshSession::Failed(SessionError::KeyFailed)));

    let (session, seen) = set_up(
        config(Some("secret"), None, None),
        &[SessionEvent::Connected, SessionEvent::AuthenticationError],
    );
    assert_eq!(seen[2], "fail TransportFailed");
    assert!(matches!(session, SshSession::Failed(SessionError::TransportFailed)));
}

#[test]
fn choose_credential_follows_the_precedence() {
    let both = Credentials {
        username: "bob".to_string(),
        password: Some("pw".to_string()),
        secret_key_path: Some(PathBuf::from("key")),
        secret_key_password: None,
    };
    let (state, action) = SshSession::choose_credential(both);
    assert!(matches!(state, SshSession::LoadingKey { ref username } if username == "bob"));
    assert_eq!(name(&action), "load key None");

    let password_only = Credentials {
        username: "bob".to_string(),
        password: Some("pw".to_string()),
        secret_key_path: None,
        secret_key_password: None,
    };
    let (state, action) = SshSession::choose_credential(password_only);
    assert!(matches!(state, SshSession::Authenticating));
    assert_eq!(name(&action), "password bob pw");

    let neither = Credentials {
        username: "bob".to_string(),
        password: None,
        secret_key_path: None,
        secret_key_password: None,
    };
    let (state, action) = SshSession::choose_credential(neither);
    assert!(matches!(state, SshSession::Failed(SessionError::MissingCredential)));
    assert_eq!(name(&action), "fail MissingCredential");
}

#[test]
fn ready_session_opens_direct_tcpip_channels() {
    let session = SshSession::Ready;
    assert_eq!(
        session.create_stream("example.org".to_string(), 80, "localhost".to_string(), 0),
        Ok(DirectTcpIp {
            host_to_connect: "example.org".to_string(),
            port_to_connect: 80,
            originator_address: "localhost".to_string(),
            originator_port: 0,
        })
    );
    assert_eq!(
        session.create_stream("10.0.0.1".to_string(), 65535, "origin".to_string(), 65535),
        Ok(DirectTcpIp {
            host_to_connect: "10.0.0.1".to_string(),
            port_to_connect: 65535,
            originator_address: "origin".to_string(),
            originator_port: 65535,
        })
    );
}

#[test]
fn closed_session_never_serves_again() {
    let (session, _) = set_up(
        config(Some("secret"), None, None),
        &[SessionEvent::Connected, SessionEvent::Accepted, SessionEvent::TransportClosed],
    );
    assert!(matches!(session, SshSession::Closed));
    assert!(session.is_closed());
    let mut session = session;
    for event in [
        SessionEvent::Connected,
        SessionEvent::KeyLoaded,
        SessionEvent::Accepted,
        SessionEvent::Rejected,
        SessionEvent::TransportClosed,
        SessionEvent::ConnectFailed,
    ] {
        let (next, action) = session.step(event);
        session = next;
        assert!(matches!(action, SessionAction::Continue));
        assert!(matches!(session, SshSession::Closed));
        assert!(!session.is_ready());
        assert_eq!(
            session.create_stream("example.org".to_string(), 80, "localhost".to_string(), 0),
            Err(SessionError::Closed)
        );
    }
}

#[test]
fn session_that_is_not_ready_opens_nothing() {
    let (connecting, _) = SshSession::new(config(Some("secret"), None, None));
    assert!(!connecting.is_ready());
    assert!(!connecting.is_closed());
    assert_eq!(
        connecting.create_stream("example.org".to_string(), 80, "localhost".to_string(), 0),
        Err(SessionError::Closed)
    );
    let (authenticating, _) = connecting.step(SessionEvent::Connected);
    assert!(matches!(authenticating, SshSession::Authenticating));
    assert_eq!(
        authenticating.create_stream("example.org".to_string(), 80, "localhost".to_string(), 0),
        Err(SessionError::Closed)
    );
    let (unchanged, action) = authenticating.step(SessionEvent::KeyLoaded);
    assert!(matches!(unchanged, SshSession::Authenticating));
    assert!(matches!(action, SessionAction::Continue));
}
