[package]
name = "misa"
version = "0.1.0"
edition = "2021"
publish = false

[dependencies]
env_logger = "0.11"
libc = "0.2"
log = "0.4"
postcard = { version = "1.1", features = ["use-std"] }
serde = { version = "1", features = ["derive"] }
toml = "0.8"
