[package]
name = "dual_greet"
version = "0.1.0"
edition = "2021"
publish = false

[dependencies]
tokio = { version = "1", features = ["macros", "rt-multi-thread"] }
hyper = { version = "0.14", features = ["server", "http1", "http2", "tcp"] }
tonic = "0.11"
tower = "0.4"
prost = "0.12"
