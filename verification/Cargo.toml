[package]
name = "craven_control"
version = "0.1.0"
edition = "2021"
publish = false

[dependencies]
chrono = "*"
ctrlc = "*"
tokio = { version = "*", features = ["rt", "time", "macros"] }
tokio-modbus = "*"
tokio-serial = "*"
