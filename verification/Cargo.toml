[package]
name = "serializable_log_record"
version = "0.1.0"
edition = "2021"
publish = false

[dependencies]
log = "0.4"
serde = { version = "1", features = ["derive"] }
bincode = { version = "2", features = ["derive"] }
