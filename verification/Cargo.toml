[package]
name = "rustconnect"
version = "0.1.0"
edition = "2021"
publish = false

[dependencies]
debug_print = "*"
dotenvy = "0.15"
env_logger = "*"
eyre = "0.6"
futures = "0.3"
libp2p = { version = "*", features = ["gossipsub", "identify", "macros", "mdns", "noise", "tcp", "tokio", "yamux"] }
log = "0.4"
rustyline = "*"
thiserror = "*"
tokio = { version = "1", features = ["macros", "rt-multi-thread", "sync"] }
tokio-util = "0.7"
