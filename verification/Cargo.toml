[package]
name = "unity_project_runtime"
version = "0.1.0"
edition = "2021"
publish = false

[dependencies]
serde = { version = "1", features = ["derive"] }
dunce = "1"
