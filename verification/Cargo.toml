[package]
name = "cosmic-totp-client"
version = "0.1.0"
edition = "2021"
publish = false

[dependencies]
totp-rs = "5"
argon2 = "0.5"
chacha20poly1305 = "0.10"
getrandom = "0.2"
keyring = "3"
serde = { version = "1", features = ["derive"] }
serde_json = "1"
tokio = { version = "1", features = ["rt", "time", "macros", "sync"] }
tokio-stream = "0.1"
tracing = "0.1"
tracing-subscriber = { version = "0.3", features = ["env-filter"] }
rfd = "0.15"
