[package]
name = "cuenv"
version = "0.1.0"
edition = "2021"
publish = false

[dependencies]
landlock = "*"
log = "*"
serde = { version = "*", features = ["derive"] }
serde_json = "*"
