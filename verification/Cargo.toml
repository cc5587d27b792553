[package]
name = "clash_verge"
version = "0.1.0"
edition = "2021"
publish = false

[dependencies]
url = "2"
percent-encoding = "2"
tokio = { version = "1", features = ["sync", "time", "rt", "macros"] }
warp = { version = "0.4", features = ["server"] }
reqwest = { version = "0.12", default-features = false }
port_scanner = "0.1"
parking_lot = "0.12"
once_cell = "1"
log = "0.4"
anyhow = "1"
scopeguard = "1"
serde = { version = "1", features = ["derive"] }
