[package]
name = "discord_social_rpc"
version = "0.1.0"
edition = "2021"
publish = false

[dependencies]
serde = { version = "1", features = ["derive"] }
serde_json = "1"
log = "0.4"
thiserror = "2"
futures-util = "0.3"
tokio = { version = "1", features = ["rt-multi-thread", "sync", "time", "macros", "net"] }
tokio-tungstenite = { version = "*", features = ["rustls-tls-webpki-roots"] }
reqwest = { version = "0.12", default-features = false, features = ["json", "blocking", "rustls-tls"] }
