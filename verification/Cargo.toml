[package]
name = "ucware-cli"
version = "0.1.0"
edition = "2021"
publish = false

[dependencies]
anyhow = "1"
clap = { version = "4", features = ["derive"] }
clap-verbosity-flag = { version = "3", default-features = false, features = ["tracing"] }
dashmap = "6"
futures = "0.3"
http = "1"
jsonrpsee = { version = "*", features = ["http-client"] }
notify-rust = "4"
rand = "0.9"
rsip = "0.4"
serde = { version = "1", features = ["derive"] }
serde_json = "1"
tokio = { version = "1", features = ["full"] }
tokio-tungstenite = { version = "*", features = ["rustls-tls-webpki-roots"] }
tracing = "0.1"
tracing-subscriber = "0.3"
tungstenite = "*"
url = "2"
