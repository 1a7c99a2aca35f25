[package]
name = "matrix_sdk_sqlite"
version = "0.1.0"
edition = "2021"
publish = false

[dependencies]
rusqlite = { version = "=0.40.2", features = ["bundled"] }
matrix-sdk-store-encryption = "=0.18.0"
rmp-serde = "=1.3.1"
deadpool-sqlite = "=0.14.0"
tokio = { version = "=1.53.2", features = ["rt", "fs", "time", "macros"] }
