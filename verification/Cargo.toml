[package]
name = "sqlite_mpi"
version = "0.1.0"
edition = "2021"
publish = false

[dependencies]
uuid = { version = "0.7", features = ["v4"] }
regex = "1"
serde = { version = "1", features = ["derive"] }
serde_json = "1"
libc = "0.2"

[dev-dependencies]
chrono = "0.4"
