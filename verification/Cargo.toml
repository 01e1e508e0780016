[package]
name = "zenoh_backend_s3"
version = "0.11.0"
edition = "2021"
publish = false

[dependencies]
async-std = "1"
async-trait = "0.1"
futures = "0.3"
lazy_static = "1"
serde_json = "1"
tokio = { version = "1", features = ["rt", "rt-multi-thread"] }
tracing = "0.1"
zenoh = { version = "0.11.0", default-features = false, features = ["unstable"] }
zenoh_backend_traits = { version = "0.11.0" }
zenoh-core = { version = "0.11.0" }
zenoh-plugin-trait = { version = "0.11.0" }
zenoh-util = { version = "0.11.0" }
