[package]
name = "service_benchmark"
version = "0.1.0"
edition = "2021"
publish = false

[dependencies]
reqwest = { version = "=0.12.28", default-features = false, features = ["rustls-tls", "http2"] }
async-trait = "=0.1.92"
log = "=0.4.34"

[dev-dependencies]
http = "=1.5.0"
http-body = "=1.1.0"
tokio = { version = "=1.54.1", features = ["rt", "time"] }
