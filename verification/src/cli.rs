//! The command line: the remote identity `user@host` and the session
//! configuration that follows from the arguments.

use crate::transport::ssh::{SshSessionConfig, SshSessionConfigView};
use vstd::prelude::*;
use vstd::string::*;

verus! {

/// The arguments of the proxy.
#[derive(Debug)]
pub struct Cli {
    /// The remote identity, `user@host`.
    pub host: String,
    /// The port of the SSH server.
    pub port: u16,
    /// The file that holds the private key, if one is used.
    pub private_key: Option<std::path::PathBuf>,
    /// The local address on which SOCKS5 clients are served.
    pub local_socks5_addr: String,
}

/// The mathematical value of a [`Cli`].
pub ghost struct CliView {
    pub host: Seq<char>,
    pub port: u16,
    pub private_key: Option<std::path::PathBuf>,
    pub local_socks5_addr: Seq<char>,
}

impl View for Cli {
    type V = CliView;

    open spec fn view(&self) -> CliView {
        CliView {
            host: self.host@,
            port: self.port,
            private_key: self.private_key,
            local_socks5_addr: self.local_socks5_addr@,
        }
    }
}

/// What is wrong with the arguments.
#[derive(Clone, Copy, Debug, PartialEq, Eq, Structural)]
pub enum CliError {
    /// The remote identity is not of the form `user@host`.
    InvalidHost,
}

impl CliError {
    /// The status the process exits with on this error. It is not zero.
    pub fn exit_code(&self) -> (code: i32)
        ensures
            code == 1,
    {
        1
    }
}

/// `text` has its one and only `@` at index `at`.
pub open spec fn splits_at(text: Seq<char>, at: int) -> bool {
    &&& 0 <= at < text.len()
    &&& text[at] == '@'
    &&& forall|j: int| 0 <= j < text.len() && j != at ==> text[j] != '@'
}

/// `text` is a remote identity: it holds exactly one `@`. Either side of it
/// may be empty.
pub open spec fn is_identity(text: Seq<char>) -> bool {
    exists|at: int| splits_at(text, at)
}

/// `text` is the identity of `user` at `host`.
pub open spec fn is_identity_of(text: Seq<char>, user: Seq<char>, host: Seq<char>) -> bool {
    exists|at: int| #[trigger]
        splits_at(text, at) && user == text.take(at) && host == text.skip(at + 1)
}

/// The configuration that the arguments ask for: the user and the host of
/// the identity, the port and the private key as given, and otherwise the
/// defaults, that is no password and no passphrase.
pub open spec fn is_config_of(config: SshSessionConfigView, cli: CliView) -> bool {
    &&& is_identity_of(cli.host, config.username, config.host)
    &&& config.port == cli.port
    &&& config.secret_key_path == cli.private_key
    &&& config.password is None
    &&& config.secret_key_password is None
}

/// An identity has one user and one host.
pub proof fn lemma_identity_is_unique(
    text: Seq<char>,
    user: Seq<char>,
    host: Seq<char>,
    other_user: Seq<char>,
    other_host: Seq<char>,
)
    requires
        is_identity_of(text, user, host),
        is_identity_of(text, other_user, other_host),
    ensures
        user == other_user,
        host == other_host,
        text == user + seq!['@'] + host,
        !user.contains('@'),
        !host.contains('@'),
{
    let at = choose|at: int| #[trigger]
        splits_at(text, at) && user == text.take(at) && host == text.skip(at + 1);
    let other = choose|at: int| #[trigger]
        splits_at(text, at) && other_user == text.take(at) && other_host == text.skip(at + 1);
    assert(at == other);
    assert(text =~= user + seq!['@'] + host);
}

/// Splits a remote identity `user@host` into its user and its host. A text
/// with no `@`, or with more than one, is no identity.
pub fn split_identity(text: &str) -> (parts: Option<(String, String)>)
    ensures
        parts is Some <==> is_identity(text@),
        parts matches Some((user, host)) ==> is_identity_of(text@, user@, host@),
{
    let n: usize = text.unicode_len();
    let mut first: Option<usize> = None;
    let mut again: bool = false;
    let ghost mut second: int = 0;
    let mut i: usize = 0;
    while i < n
        invariant
            n == text@.len(),
            i <= n,
            first is None ==> !again && forall|j: int| 0 <= j < i ==> text@[j] != '@',
            first matches Some(at) ==> at < i && text@[at as int] == '@' && forall|j: int|
                0 <= j < at ==> text@[j] != '@',
            first matches Some(at) ==> (!again ==> forall|j: int|
                at < j < i ==> text@[j] != '@'),
            again ==> (first matches Some(at) && at < second < i && text@[second] == '@'),
        decreases n - i,
    {
        if text.get_char(i) == '@' {
            match first {
                None => {
                    first = Some(i);
                },
                Some(_) => {
                    if !again {
                        proof {
                            second = i as int;
                        }
                    }
                    again = true;
                },
            }
        }
        i = i + 1;
    }
    match first {
        Some(at) => {
            if again {
                assert forall|k: int| !splits_at(text@, k) by {
                    if k == at {
                        assert(text@[second] == '@');
                    } else {
                        assert(text@[at as int] == '@');
                    }
                }
                None
            } else {
                let user = String::from_str(text.substring_char(0, at));
                let host = String::from_str(text.substring_char(at + 1, n));
                assert(splits_at(text@, at as int));
                assert(host@ == text@.skip(at + 1));
                Some((user, host))
            }
        },
        None => {
            assert forall|k: int| !splits_at(text@, k) by {
                if 0 <= k < text@.len() {
                    assert(text@[k] != '@');
                }
            }
            None
        },
    }
}

impl Cli {
    /// The session configuration that the arguments ask for.
    ///
    /// Fails with [`CliError::InvalidHost`] exactly when the remote identity
    /// is not of the form `user@host`.
    pub fn session_config(self) -> (config: Result<SshSessionConfig, CliError>)
        ensures
            config is Ok <==> is_identity(self@.host),
            config matches Ok(config) ==> is_config_of(config@, self@),
    {
        let Cli { host, port, private_key, local_socks5_addr: _ } = self;
        match split_identity(host.as_str()) {
            Some((user, host)) => {
                let mut config = SshSessionConfig::default();
                config.username = user;
                config.host = host;
                config.port = port;
                config.secret_key_path = private_key;
                Ok(config)
            },
            None => Err(CliError::InvalidHost),
        }
    }
}

} // verus!
