[package]
name = "mesagisto-center"
version = "0.1.0"
edition = "2021"
publish = false

[dependencies]
dashmap = "5"
rustls-pemfile = "1"
ciborium = "0.2"
uuid = { version = "1", features = ["serde"] }
serde = { version = "1", features = ["derive"] }
serde_yaml = "0.9"
either = "1"
tokio = { version = "1", features = ["full"] }
quinn = "0.8"
rustls = "0.20"
tokio-rustls = "0.23"
tokio-tungstenite = "0.17"
futures-util = { version = "0.3", features = ["sink"] }
color-eyre = "0.6"
tracing = "0.1"
tracing-subscriber = { version = "0.3", features = ["fmt", "time", "local-time", "registry"] }
tracing-error = "0.2"
time = { version = "0.3", features = ["macros", "formatting", "local-offset"] }
chrono = "0.4"
arcstr = { version = "1", features = ["serde"] }
