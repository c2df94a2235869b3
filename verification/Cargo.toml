[package]
name = "megatec_ups_control"
version = "0.1.0"
edition = "2021"
publish = false

[dependencies]
rusb = { version = "*", features = ["vendored"] }
spin_sleep = "*"
thiserror = "*"
