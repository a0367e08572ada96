[package]
name = "photon"
version = "0.1.0"
edition = "2021"
publish = false

[dependencies]
bitcoin = "*"
bus_queue = "*"
clap = { version = "*", features = ["cargo"] }
env_logger = "*"
futures = "0.3"
lazy_static = "1"
log = "0.4"
tokio = { version = "1", features = ["macros", "rt-multi-thread"] }
tonic = { version = "*", default-features = false }
