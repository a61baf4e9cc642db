[package]
name = "expiring_keys"
version = "0.1.0"
edition = "2021"
publish = false

[dependencies]
chrono = "0.4"
derive_more = "0.99"
log = "0.4"
r2d2_sqlite = { version = "*", features = ["bundled"] }
rand = "0.8"
serde = { version = "1", features = ["derive"] }
thiserror = "1"
