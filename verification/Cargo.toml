[package]
name = "proxly"
version = "0.1.0"
edition = "2021"
publish = false

[dependencies]
anyhow = "=1.0.104"
arc-swap = "=1.9.3"
authly-client = { version = "=0.0.9", features = ["rustls_023"] }
authly-common = { version = "=0.0.9", features = ["mtls_server"] }
clap = { version = "=4.6.7", features = ["derive"] }
futures-util = "=0.3.34"
hickory-resolver = "=0.25.2"
mimalloc = "=0.1.52"
nix = { version = "=0.29.0", features = ["socket", "net"] }
rustls = "=0.23.46"
tokio = { version = "=1.54.1", features = ["full"] }
tokio-rustls = "=0.26.6"
tokio-util = "=0.7.20"
tower-server = { version = "=0.3.1", features = ["signal"] }
tracing = "=0.1.44"
tracing-subscriber = { version = "=0.3.23", features = ["env-filter"] }
