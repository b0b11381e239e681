[package]
name = "ble_session"
version = "0.1.0"
edition = "2021"
publish = false

[dependencies]
hex = "0.4"
regex = "1"
serde = { version = "1", features = ["derive"] }
serde_json = "1"
futures = "0.3"
tokio = { version = "1", features = ["rt", "macros", "time"] }
simplersble = "*"
