[package]
name = "clcat"
version = "0.1.0"
edition = "2021"
publish = false

[dependencies]
clap = { version = "4", features = ["derive"] }
libp2p = { version = "0.52", features = ["gossipsub", "macros", "mdns", "noise", "quic", "tcp", "tokio", "yamux"] }
log = "0.4"
pretty_env_logger = "0.5"
tokio = { version = "1", features = ["io-std", "io-util", "macros", "rt-multi-thread"] }
tokio-stream = { version = "0.1", features = ["io-util"] }
