[package]
name = "storelib_rs"
version = "0.1.0"
edition = "2021"
publish = false

[dependencies]
roxmltree = "0.20"
serde = { version = "1", features = ["derive"] }
serde_json = "1"
reqwest = { version = "0.12", default-features = false, features = ["rustls-tls"] }
tokio = { version = "1", features = ["rt-multi-thread", "macros", "time", "fs", "io-util"] }
futures-util = "0.3"
event-listener = "5"
clap = { version = "4", features = ["derive"] }
log = "0.4"
env_logger = "0.11"
indicatif = "0.17"
thiserror = "1"
