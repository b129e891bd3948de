[package]
name = "sneck"
version = "0.1.0"
edition = "2021"
publish = false

[dependencies]
rand = "0.9"
strum = { version = "0.27", features = ["derive"] }
thiserror = "2"
