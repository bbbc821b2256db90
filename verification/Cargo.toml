[package]
name = "rs_sysctl_typed_cpu"
version = "0.1.0"
edition = "2021"
publish = false

[dependencies]
sysctl = "*"
serde = { version = "1", features = ["derive"] }
serde_json = "1"
