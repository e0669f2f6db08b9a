[package]
name = "shadowrocket"
version = "0.1.0"
edition = "2021"
publish = false

[dependencies]
anyhow = "1"
display-info = "*"
fast_image_resize = "*"
image = { version = "0.25", default-features = false, features = ["png"] }
log = "0.4"
nanoid = "0.4"
once_cell = "1"
parking_lot = "0.12"
port_scanner = "0.1"
reqwest = { version = "0.12", default-features = false }
rfd = "*"
rust-i18n = "3"
serde = { version = "1", features = ["derive"] }
serde_yaml = "0.9"
sysinfo = "0.30"
sysproxy = "*"
tokio = { version = "1", features = ["rt", "rt-multi-thread", "time", "macros", "process", "io-util", "sync"] }
tracing = "0.1"
tracing-attributes = "0.1"
