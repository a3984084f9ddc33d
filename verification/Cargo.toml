[package]
name = "flashpoint-archive"
version = "0.1.0"
edition = "2021"
publish = false

[dependencies]
fancy-regex = "0.13"
meval = "0.2"
uuid = { version = "1", features = ["v4"] }
chrono = "0.4"
serde = { version = "1", features = ["derive"] }
serde_json = "1"
rusqlite = { version = "0.31", features = ["bundled", "array"] }
r2d2 = "0.8"
r2d2_sqlite = "0.24"
rusqlite_migration = "1.2"
snafu = "0.8"
fs_extra = "1.3"
lazy_static = "1.4"
