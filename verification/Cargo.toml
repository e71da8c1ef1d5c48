[package]
name = "lsctl"
version = "0.1.0"
edition = "2021"
publish = false

[dependencies]
anyhow = "=1.0.104"
async-trait = "=0.1.92"
base64 = "=0.13.1"
clap = { version = "=3.2.25", features = ["derive"] }
colored = "=2.2.0"
futures = "=0.3.34"
hyper = { version = "=0.14.32", features = ["client", "http1", "http2", "tcp"] }
hyper-rustls = { version = "=0.23.2", features = ["http2"] }
regex = "=1.13.1"
schemars = "=0.8.22"
serde = { version = "=1.0.229", features = ["derive"] }
serde_json = "=1.0.154"
tokio = { version = "=1.54.1", features = ["macros", "rt-multi-thread"] }
toml = "=0.5.11"

[dev-dependencies]
json-patch = "=0.2.7"
