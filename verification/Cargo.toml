[package]
name = "tappad"
version = "0.1.0"
edition = "2021"
publish = false

[dependencies]
base64 = "=0.22.1"
getrandom = "=0.2.17"
serde = { version = "=1.0.229", features = ["derive"] }
serde_json = "=1.0.154"
qrcode = { version = "=0.14.1", default-features = false, features = ["svg"] }
local-ip-address = "=0.6.13"
axum = { version = "=0.8.9", features = ["ws"] }
tokio = { version = "=1.54.1", features = ["rt-multi-thread", "macros", "net", "sync", "time", "process", "io-util", "signal"] }
libc = "=0.2.191"
mdns-sd = "*"
