[package]
name = "pentair"
version = "0.1.0"
edition = "2021"
publish = false

[dependencies]
serde = { version = "*", features = ["derive"] }
serde_json = "*"
clap = { version = "*", features = ["derive"] }
chrono = "*"
log = "*"
simplelog = "*"
tokio = { version = "*", features = ["rt-multi-thread", "macros"] }
axum = { version = "*", features = ["ws"] }
futures-util = "*"
whoami = "*"
