[package]
name = "dabmux_rc"
version = "0.1.0"
edition = "2021"
publish = false

[dependencies]
serde_json = { version = "1", features = ["preserve_order"] }
serde = { version = "1", features = ["derive"] }
anyhow = "1"
log = "0.4"
zmq = "0.10"
toml = "0.8"
chrono = "0.4"
tokio = { version = "1", features = ["full"] }
axum = "0.7"
askama = "0.12"
tower-http = { version = "0.5", features = ["fs"] }
argparse = "0.2"
simple_logger = "4"
