[package]
name = "summa"
version = "0.1.0"
edition = "2021"
publish = false

[dependencies]
async-broadcast = "=0.4.1"
clap = { version = "=3.2.25", features = ["cargo"] }
fasteval2 = "=2.1.1"
futures = "=0.3.34"
serde = { version = "=1.0.229", features = ["derive"] }
serde_yaml = "=0.8.26"
tantivy = "=0.18.1"
tokio = { version = "=1.54.1", features = ["full"] }
tracing = "=0.1.44"

[dev-dependencies]
tempfile = "=3.27.0"
