[package]
name = "sqlite_handbook"
version = "0.1.0"
edition = "2021"
publish = false

[dependencies]
uuid = { version = "=1.29.0", features = ["v4"] }
chrono = { version = "=0.4.45", features = ["serde"] }
regex = "=1.13.1"
rusqlite = { version = "=0.40.2", features = ["bundled", "functions"] }
rusqlite_migration = "=2.6.0"
r2d2 = "=0.8.10"
serde = { version = "=1.0.229", features = ["derive"] }
serde_json = "=1.0.154"
rmp-serde = "=1.3.1"
bincode = "=1.3.3"
anyhow = "=1.0.104"
