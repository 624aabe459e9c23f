[package]
name = "gossip_chat"
version = "0.1.0"
edition = "2021"
publish = false

[dependencies]
env_logger = "0.9"
futures = "0.3"
libp2p = { version = "0.52", default-features = false, features = ["gossipsub", "macros", "noise", "tcp", "tokio"] }
libp2p-mplex = "0.40"
libp2p-tcp = { version = "0.40", default-features = false, features = ["tokio"] }
log = "0.4"
tokio = { version = "1", features = ["io-std", "io-util", "macros", "rt-multi-thread"] }
