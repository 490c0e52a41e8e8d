[package]
name = "rusty_archive_viewer"
version = "0.1.0"
edition = "2021"
publish = false

[dependencies]
chrono = "*"
chrono-tz = "*"
regex = "*"
uuid = { version = "*", features = ["v4"] }
dashmap = "*"
url = "*"
reqwest = { version = "*", default-features = false, features = ["json"] }
tokio = { version = "*", features = ["rt-multi-thread", "macros", "sync", "time"] }
futures = "*"
serde = { version = "*", features = ["derive"] }
serde_json = "*"
prost = "*"
csv = "*"
thiserror = "*"
parking_lot = "*"
once_cell = "*"
lazy_static = "*"
tracing = "*"
