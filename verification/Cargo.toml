[package]
name = "barge"
version = "0.1.0"
edition = "2021"
publish = false

[dependencies]
async-trait = "0.1"
parking_lot = "0.12"
rand = "0.8"
serde = { version = "1", features = ["derive"] }
strum = { version = "0.24", features = ["derive"] }
tokio = { version = "1", features = ["macros", "rt", "sync", "time"] }
tokio-util = "0.7"
