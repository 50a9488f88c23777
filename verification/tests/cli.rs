//! The remote identity and the configuration built from the arguments.

use simple_socks5_proxy_core::cli::{split_identity, Cli, CliError};
use std::path::PathBuf;

fn parts(user: &str, host: &str) -> Option<(String, String)> {
    Some((user.to_string(), host.to_string()))
}

#[test]
fn identity_is_split_at_its_one_at_sign() {
    assert_eq!(split_identity("alice@jump.example"), parts("alice", "jump.example"));
    assert_eq!(split_identity("root@10.0.0.1"), parts("root", "10.0.0.1"));
    assert_eq!(split_identity("a@b"), parts("a", "b"));
}

#[test]
fn either_side_of_the_identity_may_be_empty() {
    assert_eq!(split_identity("@host"), parts("", "host"));
    assert_eq!(split_identity("user@"), parts("user", ""));
    assert_eq!(split_identity("@"), parts("", ""));
}

#[test]
fn text_without_exactly_one_at_sign_is_no_identity() {
    assert_eq!(split_identity(""), None);
    assert_eq!(split_identity("jump.example"), None);
    assert_eq!(split_identity("a@b@c"), None);
    assert_eq!(split_identity("@@"), None);
    assert_eq!(split_identity("user@@host"), None);
    assert_eq!(split_identity("@user@host@"), None);
}

#[test]
fn identity_may_hold_characters_of_several_bytes() {
    assert_eq!(split_identity("zoë@bücher.example"), parts("zoë", "bücher.example"));
    assert_eq!(split_identity("日本@語"), parts("日本", "語"));
    assert_eq!(split_identity("日本語"), None);
}

#[test]
fn split_agrees_with_splitting_on_the_at_sign() {
    let alphabet = ['a', '@', 'é'];
    let mut texts = vec![String::new()];
    for _ in 0..5 {
        let mut longer = Vec::new();
        for text in &texts {
            for c in alphabet {
                let mut next = text.clone();
                next.push(c);
                longer.push(next);
            }
        }
        for text in &longer {
            let pieces: Vec<&str> = text.split('@').collect();
            let expected = if pieces.len() == 2 { parts(pieces[0], pieces[1]) } else { None };
            assert_eq!(split_identity(text), expected);
        }
        texts = longer;
    }
}

#[test]
fn session_config_follows_the_arguments() {
    let cli = Cli {
        host: "alice@jump.example".to_string(),
        port: 2222,
        private_key: Some(PathBuf::from("/home/alice/.ssh/id_ed25519")),
        local_socks5_addr: "127.0.0.1:1080".to_string(),
    };
    let config = cli.session_config().unwrap();
    assert_eq!(config.username, "alice");
    assert_eq!(config.host, "jump.example");
    assert_eq!(config.port, 2222);
    assert_eq!(config.secret_key_path, Some(PathBuf::from("/home/alice/.ssh/id_ed25519")));
    assert_eq!(config.password, None);
    assert_eq!(config.secret_key_password, None);
}

#[test]
fn session_config_without_a_key() {
    let cli = Cli {
        host: "root@10.0.0.1".to_string(),
        port: 22,
        private_key: None,
        local_socks5_addr: "[::1]:1080".to_string(),
    };
    let config = cli.session_config().unwrap();
    assert_eq!(config.username, "root");
    assert_eq!(config.host, "10.0.0.1");
    assert_eq!(config.port, 22);
    assert_eq!(config.secret_key_path, None);
    assert_eq!(config.password, None);
}

#[test]
fn malformed_identity_is_an_invalid_host() {
    for host in ["jump.example", "", "a@b@c"] {
        let cli = Cli {
            host: host.to_string(),
            port: 22,
            private_key: None,
            local_socks5_addr: "127.0.0.1:1080".to_string(),
        };
        let error = cli.session_config().unwrap_err();
        assert_eq!(error, CliError::InvalidHost);
        assert_eq!(error.exit_code(), 1);
        assert_ne!(error.exit_code(), 0);
    }
}
