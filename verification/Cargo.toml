[package]
name = "prist"
version = "0.1.0"
edition = "2021"
rust-version = "1.95"
publish = false

[dependencies]
anyhow = "1"
clap = { version = "4", features = ["derive", "env"] }
clap_complete = "4"
colored = "2"
dialoguer = { version = "0.11", default-features = false }
dirs = "6"
futures-util = "0.3"
gix = { version = "0.70", default-features = false, features = ["blocking-network-client", "blocking-http-transport-reqwest-rust-tls", "worktree-mutation"] }
hex = "=0.4.3"
indicatif = "0.17"
jsonc-parser = { version = "=0.26.3", features = ["serde"] }
junction = "1"
kstring = "=2.0.2"
reqwest = { version = "0.12", default-features = false, features = ["rustls-tls", "gzip", "stream"] }
self_update = { version = "0.41", default-features = false, features = ["rustls"] }
serde = { version = "1", features = ["derive"] }
serde_json = "=1.0.154"
sha2 = "=0.11.1"
tempfile = "3"
thiserror = "2"
tokio = { version = "1", features = ["macros", "rt-multi-thread"] }
tracing = "0.1"
tracing-subscriber = { version = "0.3", features = ["env-filter"] }
