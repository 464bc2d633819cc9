[package]
name = "screenshot_rust"
version = "0.1.0"
edition = "2021"
publish = false

[dependencies]
base64 = "*"
chromiumoxide = "*"
clap = { version = "*", features = ["derive"] }
futures = "*"
serde = { version = "*", features = ["derive"] }
serde_json = "*"
tokio = { version = "*", features = ["rt-multi-thread", "macros", "time"] }
