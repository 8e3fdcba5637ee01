[package]
name = "tunnel_control"
version = "0.1.0"
edition = "2021"
publish = false

[dependencies]
gethostname = "=0.4.3"
tokio = { version = "=1.53.2", features = ["full"] }
serde = { version = "=1.0.229", features = ["derive"] }
rmp-serde = "=1.3.1"
serde_bytes = "=0.11.19"
serde_json = "=1.0.151"
hyper = { version = "=0.14.32", features = ["client", "http1"] }
flate2 = "1"
