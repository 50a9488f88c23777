//! The SSH-backed tunnel session: its configuration, the way it is set up,
//! and what it opens for each stream.
//!
//! Setting a session up alternates network work with decisions. The caller
//! does the network work; [`SshSession`] makes the decisions: which
//! credential is tried, what a rejected credential means, and whether a
//! stream may still be opened.

use vstd::prelude::*;
use vstd::string::*;

pub mod runs;

verus! {

/// `std::path::PathBuf`, carried through as an opaque value.
#[verifier::external_type_specification]
#[verifier::external_body]
pub struct ExPathBuf(std::path::PathBuf);

/// `russh::client::Config`, carried through as an opaque value.
#[verifier::external_type_specification]
#[verifier::external_body]
pub struct ExTransportConfig(russh::client::Config);

/// Trusted: `<russh::client::Config as Default>::default`. Nothing is
/// claimed of the value it returns.
#[verifier::external_body]
fn default_transport_config() -> russh::client::Config {
    russh::client::Config::default()
}

/// What it takes to set up an SSH session: where to connect, who to be, and
/// the credentials at hand.
#[derive(Debug)]
pub struct SshSessionConfig {
    pub host: String,
    pub port: u16,
    pub username: String,
    pub password: Option<String>,
    pub secret_key_path: Option<std::path::PathBuf>,
    pub secret_key_password: Option<String>,
    pub russh_config: russh::client::Config,
}

/// The characters of an optional string.
pub open spec fn text_of(text: Option<String>) -> Option<Seq<char>> {
    match text {
        Some(text) => Some(text@),
        None => None,
    }
}

/// The mathematical value of an [`SshSessionConfig`].
pub ghost struct SshSessionConfigView {
    pub host: Seq<char>,
    pub port: u16,
    pub username: Seq<char>,
    pub password: Option<Seq<char>>,
    pub secret_key_path: Option<std::path::PathBuf>,
    pub secret_key_password: Option<Seq<char>>,
    pub russh_config: russh::client::Config,
}

impl View for SshSessionConfig {
    type V = SshSessionConfigView;

    open spec fn view(&self) -> SshSessionConfigView {
        SshSessionConfigView {
            host: self.host@,
            port: self.port,
            username: self.username@,
            password: text_of(self.password),
            secret_key_path: self.secret_key_path,
            secret_key_password: text_of(self.secret_key_password),
            russh_config: self.russh_config,
        }
    }
}

/// The default configuration: user `root` on port 22, no host and no
/// credential yet. Of the transport settings nothing is said.
pub open spec fn is_default_config(config: SshSessionConfigView) -> bool {
    &&& config.host == Seq::<char>::empty()
    &&& config.port == 22
    &&& config.username == "root"@
    &&& config.password is None
    &&& config.secret_key_path is None
    &&& config.secret_key_password is None
}

impl Default for SshSessionConfig {
    fn default() -> (config: SshSessionConfig)
        ensures
            is_default_config(config@),
    {
        SshSessionConfig {
            host: String::new(),
            port: 22,
            username: String::from_str("root"),
            password: None,
            secret_key_path: None,
            secret_key_password: None,
            russh_config: default_transport_config(),
        }
    }
}

/// The policy on the identity a server presents during the handshake.
#[derive(Clone, Copy, Debug)]
pub struct SshEventHandler {}

impl SshEventHandler {
    /// Decides whether the server's public key, given by its fingerprint,
    /// is trusted. Every key is: the policy is permissive, and insecure.
    pub fn check_server_key(&self, fingerprint: &str) -> (trusted: bool)
        ensures
            trusted,
    {
        true
    }
}

/// Why a session could not be set up, or cannot serve.
#[derive(Clone, Copy, Debug, PartialEq, Eq, Structural)]
pub enum SessionError {
    /// Neither a private key nor a password was supplied.
    MissingCredential,
    /// The server rejected the credential that was tried.
    AuthenticationFailed,
    /// The server could not be connected to, or the handshake failed.
    ConnectFailed,
    /// The private key could not be loaded.
    KeyFailed,
    /// The transport failed while the credential was being tried.
    TransportFailed,
    /// The session has no open transport.
    Closed,
}

/// The user and the credentials that a session will authenticate with once
/// it is connected.
#[derive(Clone, Debug)]
pub struct Credentials {
    pub username: String,
    pub password: Option<String>,
    pub secret_key_path: Option<std::path::PathBuf>,
    pub secret_key_password: Option<String>,
}

/// The mathematical value of [`Credentials`].
pub ghost struct CredentialsView {
    pub username: Seq<char>,
    pub password: Option<Seq<char>>,
    pub secret_key_path: Option<std::path::PathBuf>,
    pub secret_key_password: Option<Seq<char>>,
}

impl View for Credentials {
    type V = CredentialsView;

    open spec fn view(&self) -> CredentialsView {
        CredentialsView {
            username: self.username@,
            password: text_of(self.password),
            secret_key_path: self.secret_key_path,
            secret_key_password: text_of(self.secret_key_password),
        }
    }
}

/// Where an SSH session stands.
#[derive(Clone, Debug)]
pub enum SshSession {
    /// The server is being connected to.
    Connecting(Credentials),
    /// The private key is being loaded, to authenticate this user.
    LoadingKey { username: String },
    /// A credential has been presented to the server.
    Authenticating,
    /// The session is authenticated and serves streams.
    Ready,
    /// The transport has been closed.
    Closed,
    /// The session could not be set up.
    Failed(SessionError),
}

/// What the caller reports.
#[derive(Clone, Copy, Debug, PartialEq, Eq, Structural)]
pub enum SessionEvent {
    /// The server is connected and the handshake is done.
    Connected,
    /// Connecting or the handshake failed.
    ConnectFailed,
    /// The private key was loaded.
    KeyLoaded,
    /// The private key could not be read or decoded.
    KeyFailed,
    /// The server accepted the credential.
    Accepted,
    /// The server rejected the credential.
    Rejected,
    /// The transport failed while the credential was being tried.
    AuthenticationError,
    /// The transport reported that it is closed.
    TransportClosed,
}

/// What the caller has to do next.
#[derive(Debug)]
pub enum SessionAction {
    /// Connect to the server and run the handshake.
    Connect { host: String, port: u16, config: russh::client::Config },
    /// Load the private key at this path, with this passphrase if it has one.
    LoadKey { path: std::path::PathBuf, passphrase: Option<String> },
    /// Authenticate this user with the key that was loaded.
    AuthenticatePublicKey { username: String },
    /// Authenticate this user with this password.
    AuthenticatePassword { username: String, password: String },
    /// The session is ready: hand it out.
    Finish,
    /// Give up with this error.
    Fail(SessionError),
    /// Nothing changes.
    Continue,
}

/// The mathematical value of an [`SshSession`].
pub ghost enum SshSessionView {
    Connecting(CredentialsView),
    LoadingKey { username: Seq<char> },
    Authenticating,
    Ready,
    Closed,
    Failed(SessionError),
}

/// The mathematical value of a [`SessionAction`].
pub ghost enum SessionActionView {
    Connect { host: Seq<char>, port: u16, config: russh::client::Config },
    LoadKey { path: std::path::PathBuf, passphrase: Option<Seq<char>> },
    AuthenticatePublicKey { username: Seq<char> },
    AuthenticatePassword { username: Seq<char>, password: Seq<char> },
    Finish,
    Fail(SessionError),
    Continue,
}

impl View for SshSession {
    type V = SshSessionView;

    open spec fn view(&self) -> SshSessionView {
        match *self {
            SshSession::Connecting(credentials) => SshSessionView::Connecting(credentials@),
            SshSession::LoadingKey { username } => SshSessionView::LoadingKey {
                username: username@,
            },
            SshSession::Authenticating => SshSessionView::Authenticating,
            SshSession::Ready => SshSessionView::Ready,
            SshSession::Closed => SshSessionView::Closed,
            SshSession::Failed(error) => SshSessionView::Failed(error),
        }
    }
}

impl View for SessionAction {
    type V = SessionActionView;

    open spec fn view(&self) -> SessionActionView {
        match *self {
            SessionAction::Connect { host, port, config } => SessionActionView::Connect {
                host: host@,
                port,
                config,
            },
            SessionAction::LoadKey { path, passphrase } => SessionActionView::LoadKey {
                path,
                passphrase: text_of(passphrase),
            },
            SessionAction::AuthenticatePublicKey { username } => {
                SessionActionView::AuthenticatePublicKey { username: username@ }
            },
            SessionAction::AuthenticatePassword { username, password } => {
                SessionActionView::AuthenticatePassword {
                    username: username@,
                    password: password@,
                }
            },
            SessionAction::Finish => SessionActionView::Finish,
            SessionAction::Fail(error) => SessionActionView::Fail(error),
            SessionAction::Continue => SessionActionView::Continue,
        }
    }
}

/// How a session starts: it connects to the configured host and port with
/// the configured transport settings, and keeps the credentials for later.
pub open spec fn session_start(config: SshSessionConfigView) -> (SshSessionView, SessionActionView) {
    (
        SshSessionView::Connecting(
            CredentialsView {
                username: config.username,
                password: config.password,
                secret_key_path: config.secret_key_path,
                secret_key_password: config.secret_key_password,
            },
        ),
        SessionActionView::Connect {
            host: config.host,
            port: config.port,
            config: config.russh_config,
        },
    )
}

/// Which credential is tried once the server is connected. A private key
/// comes first; without one a password is required; with neither the
/// session cannot be set up.
pub open spec fn on_connected(credentials: CredentialsView) -> (
    SshSessionView,
    SessionActionView,
) {
    match credentials.secret_key_path {
        Some(path) => (
            SshSessionView::LoadingKey { username: credentials.username },
            SessionActionView::LoadKey { path, passphrase: credentials.secret_key_password },
        ),
        None => match credentials.password {
            Some(password) => (
                SshSessionView::Authenticating,
                SessionActionView::AuthenticatePassword {
                    username: credentials.username,
                    password,
                },
            ),
            None => (
                SshSessionView::Failed(SessionError::MissingCredential),
                SessionActionView::Fail(SessionError::MissingCredential),
            ),
        },
    }
}

/// The session's answer to a failure: it has failed with this error.
pub open spec fn failed_with(error: SessionError) -> (SshSessionView, SessionActionView) {
    (SshSessionView::Failed(error), SessionActionView::Fail(error))
}

/// The session's transition function. An event that the state does not
/// wait for changes nothing.
pub open spec fn session_transition(state: SshSessionView, event: SessionEvent) -> (
    SshSessionView,
    SessionActionView,
) {
    match (state, event) {
        (SshSessionView::Connecting(credentials), SessionEvent::Connected) => on_connected(
            credentials,
        ),
        (SshSessionView::Connecting(_), SessionEvent::ConnectFailed) => failed_with(
            SessionError::ConnectFailed,
        ),
        (SshSessionView::LoadingKey { username }, SessionEvent::KeyLoaded) => (
            SshSessionView::Authenticating,
            SessionActionView::AuthenticatePublicKey { username },
        ),
        (SshSessionView::LoadingKey { .. }, SessionEvent::KeyFailed) => failed_with(
            SessionError::KeyFailed,
        ),
        (SshSessionView::Authenticating, SessionEvent::Accepted) => (
            SshSessionView::Ready,
            SessionActionView::Finish,
        ),
        (SshSessionView::Authenticating, SessionEvent::Rejected) => failed_with(
            SessionError::AuthenticationFailed,
        ),
        (SshSessionView::Authenticating, SessionEvent::AuthenticationError) => failed_with(
            SessionError::TransportFailed,
        ),
        (SshSessionView::Ready, SessionEvent::TransportClosed) => (
            SshSessionView::Closed,
            SessionActionView::Continue,
        ),
        (state, _) => (state, SessionActionView::Continue),
    }
}

/// What is opened on the transport for one stream: a channel of the kind
/// "direct TCP/IP" to the host and port, with 32-bit ports.
#[derive(Clone, Debug, PartialEq, Eq)]
pub struct DirectTcpIp {
    pub host_to_connect: String,
    pub port_to_connect: u32,
    pub originator_address: String,
    pub originator_port: u32,
}

/// The mathematical value of a [`DirectTcpIp`].
pub ghost struct DirectTcpIpView {
    pub host_to_connect: Seq<char>,
    pub port_to_connect: u32,
    pub originator_address: Seq<char>,
    pub originator_port: u32,
}

impl View for DirectTcpIp {
    type V = DirectTcpIpView;

    open spec fn view(&self) -> DirectTcpIpView {
        DirectTcpIpView {
            host_to_connect: self.host_to_connect@,
            port_to_connect: self.port_to_connect,
            originator_address: self.originator_address@,
            originator_port: self.originator_port,
        }
    }
}

/// Whether a session in this state has an open, authenticated transport.
pub open spec fn serves(state: SshSessionView) -> bool {
    state is Ready
}

/// Whether a session in this state is over: its transport is closed, or it
/// could not be set up.
pub open spec fn is_over(state: SshSessionView) -> bool {
    state is Closed || state is Failed
}

impl SshSession {
    /// Starts setting a session up from its configuration.
    pub fn new(config: SshSessionConfig) -> (start: (SshSession, SessionAction))
        ensures
            (start.0@, start.1@) == session_start(config@),
    {
        let SshSessionConfig {
            host,
            port,
            username,
            password,
            secret_key_path,
            secret_key_password,
            russh_config,
        } = config;
        (
            SshSession::Connecting(
                Credentials { username, password, secret_key_path, secret_key_password },
            ),
            SessionAction::Connect { host, port, config: russh_config },
        )
    }

    /// Takes the session one event further and says what to do next.
    pub fn step(self, event: SessionEvent) -> (next: (SshSession, SessionAction))
        ensures
            (next.0@, next.1@) == session_transition(self@, event),
    {
        match self {
            SshSession::Connecting(credentials) => match event {
                SessionEvent::Connected => SshSession::choose_credential(credentials),
                SessionEvent::ConnectFailed => SshSession::fail(SessionError::ConnectFailed),
                _ => (SshSession::Connecting(credentials), SessionAction::Continue),
            },
            SshSession::LoadingKey { username } => match event {
                SessionEvent::KeyLoaded => (
                    SshSession::Authenticating,
                    SessionAction::AuthenticatePublicKey { username },
                ),
                SessionEvent::KeyFailed => SshSession::fail(SessionError::KeyFailed),
                _ => (SshSession::LoadingKey { username }, SessionAction::Continue),
            },
            SshSession::Authenticating => match event {
                SessionEvent::Accepted => (SshSession::Ready, SessionAction::Finish),
                SessionEvent::Rejected => SshSession::fail(SessionError::AuthenticationFailed),
                SessionEvent::AuthenticationError => SshSession::fail(
                    SessionError::TransportFailed,
                ),
                _ => (SshSession::Authenticating, SessionAction::Continue),
            },
            SshSession::Ready => match event {
                SessionEvent::TransportClosed => (SshSession::Closed, SessionAction::Continue),
                _ => (SshSession::Ready, SessionAction::Continue),
            },
            SshSession::Closed => (SshSession::Closed, SessionAction::Continue),
            SshSession::Failed(error) => (SshSession::Failed(error), SessionAction::Continue),
        }
    }

    /// Picks the credential to try: the private key if there is one, else
    /// the password; with neither the session fails.
    pub fn choose_credential(credentials: Credentials) -> (next: (SshSession, SessionAction))
        ensures
            (next.0@, next.1@) == on_connected(credentials@),
    {
        let Credentials { username, password, secret_key_path, secret_key_password } = credentials;
        match secret_key_path {
            Some(path) => (
                SshSession::LoadingKey { username },
                SessionAction::LoadKey { path, passphrase: secret_key_password },
            ),
            None => match password {
                Some(password) => (
                    SshSession::Authenticating,
                    SessionAction::AuthenticatePassword { username, password },
                ),
                None => SshSession::fail(SessionError::MissingCredential),
            },
        }
    }

    fn fail(error: SessionError) -> (next: (SshSession, SessionAction))
        ensures
            (next.0@, next.1@) == failed_with(error),
    {
        (SshSession::Failed(error), SessionAction::Fail(error))
    }

    /// Whether the session is authenticated and serves streams.
    pub fn is_ready(&self) -> (ready: bool)
        ensures
            ready == serves(self@),
    {
        match self {
            SshSession::Ready => true,
            _ => false,
        }
    }

    /// Whether the session is over. A session that is over never serves
    /// again.
    pub fn is_closed(&self) -> (closed: bool)
        ensures
            closed == is_over(self@),
    {
        match self {
            SshSession::Closed => true,
            SshSession::Failed(_) => true,
            _ => false,
        }
    }

    /// What to open on the transport for a stream to `host_to_connect` and
    /// `port_to_connect`. Only a ready session opens anything: in every
    /// other state the request fails with [`SessionError::Closed`].
    pub fn create_stream(
        &self,
        host_to_connect: String,
        port_to_connect: u16,
        originator_address: String,
        originator_port: u16,
    ) -> (channel: Result<DirectTcpIp, SessionError>)
        ensures
            serves(self@) ==> channel is Ok && channel->Ok_0@ == (DirectTcpIpView {
                host_to_connect: host_to_connect@,
                port_to_connect: port_to_connect as u32,
                originator_address: originator_address@,
                originator_port: originator_port as u32,
            }),
            !serves(self@) ==> channel == Err::<DirectTcpIp, SessionError>(SessionError::Closed),
    {
        match self {
            SshSession::Ready => Ok(
                DirectTcpIp {
                    host_to_connect,
                    port_to_connect: port_to_connect as u32,
                    originator_address,
                    originator_port: originator_port as u32,
                },
            ),
            _ => Err(SessionError::Closed),
        }
    }
}

} // verus!
