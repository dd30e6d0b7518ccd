[package]
name = "p2p_rust"
version = "0.1.0"
edition = "2021"
publish = false

[dependencies]
libp2p = { version = "=0.57.1", features = ["tokio", "tcp", "noise", "yamux", "ping", "request-response", "kad", "mdns", "gossipsub", "identify", "macros"] }
futures = "=0.3.34"
tokio = { version = "=1.54.1", features = ["macros", "rt-multi-thread", "time"] }
serde = { version = "=1.0.229", features = ["derive"] }
log = "=0.4.35"
env_logger = "=0.11.11"
