[package]
name = "simple_socks5_proxy_core"
version = "0.1.0"
edition = "2021"
publish = false

[dependencies]
anyhow = "1"
async-trait = "0.1"
clap = { version = "4", features = ["derive"] }
env_logger = "0.11"
log = "0.4"
russh = "0.45"
socks5-impl = "0.5"
tokio = { version = "1", features = ["rt-multi-thread", "macros", "net", "io-util"] }
