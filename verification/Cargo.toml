[package]
name = "notifier"
version = "0.1.0"
edition = "2021"
publish = false

[dependencies]
anyhow = "*"
bollard-next = "*"
clap = { version = "*", features = ["derive"] }
futures-util = "*"
serde = { version = "*", features = ["derive"] }
serde_json = "*"
tokio = { version = "*", features = ["macros", "rt-multi-thread", "time"] }
