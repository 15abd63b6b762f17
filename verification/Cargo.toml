[package]
name = "minitel"
version = "0.1.0"
edition = "2021"
publish = false

[dependencies]
unicode-normalization = "=0.1.26"
smallvec = "=1.16.4"
ratatui = { version = "=0.29.0", default-features = false }
futures = "=0.3.34"
tungstenite = "=0.26.2"
axum = { version = "=0.8.9", features = ["ws"] }
log = "=0.4.34"
