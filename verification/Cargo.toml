[package]
name = "init_service_action"
version = "0.1.0"
edition = "2021"
publish = false

[dependencies]
plist = "*"
serde = { version = "*", features = ["derive"] }
tokio = { version = "*", features = ["fs", "process", "io-util"] }
thiserror = "*"
