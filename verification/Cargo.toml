[package]
name = "runner"
version = "0.1.0"
edition = "2021"
publish = false

[dependencies]
tokio = { version = "*", features = ["full"] }
sysinfo = "*"
axum = { version = "*", features = ["ws"] }
serde = { version = "*", features = ["derive"] }
bitcode = { version = "*", features = ["serde"] }
