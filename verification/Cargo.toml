[package]
name = "peer_dial"
version = "0.1.0"
edition = "2021"
publish = false

[dependencies]
libp2p = { version = "*", features = ["macros", "mdns", "ping", "tokio"] }
log = "0.4"
