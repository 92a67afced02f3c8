[package]
name = "analytics"
version = "0.1.0"
edition = "2021"
publish = false

[dependencies]
time = "0.3"
thiserror = "1"
error-stack = "0.4"
strum = { version = "0.26", features = ["derive"] }
