[package]
name = "port_boundary"
version = "0.1.0"
edition = "2021"
publish = false

[dependencies]
anyhow = "1"
async-trait = "0.1"
dyn-clone = "1"
env_logger = "*"
ipnetwork = { version = "*", default-features = false }
libc = "0.2"
tokio = { version = "1", features = ["rt", "rt-multi-thread"] }
