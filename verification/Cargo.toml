[package]
name = "tpower"
version = "0.1.0"
edition = "2021"
publish = false

[dependencies]
plist = "*"
ratatui = { version = "*", default-features = false }
serde = { version = "*", features = ["derive"] }
serde_json = "*"
tokio = { version = "*", features = ["rt", "sync", "time", "macros"] }
log = "*"
thiserror = "*"
anyhow = "*"
core-foundation = "*"
io-kit-sys = "*"
mach = "*"
libc = "*"
