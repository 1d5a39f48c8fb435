[package]
name = "mdr"
version = "0.1.0"
edition = "2021"
publish = false

[dependencies]
axum = { version = "*", features = ["ws"] }
notify = "*"
tokio = { version = "*", features = ["full"] }
