[package]
name = "pearls"
version = "0.1.0"
edition = "2021"
publish = false

[dependencies]
chrono = "=0.4.45"
chrono-humanize = "=0.2.3"
humantime = "=2.4.0"
strsim = "=0.11.1"
clap = "=4.6.7"
rusqlite = "=0.41.0"
serde = { version = "=1.0.229", features = ["derive"] }
serde_json = "=1.0.154"
crossbeam-channel = "=0.5.17"
csv = "=1.4.0"
bytes = "=1.12.1"
warp = "=0.3.7"
tokio = { version = "=1.54.1", features = ["rt", "macros"] }
handlebars = "=6.4.4"
fractal-matrix-api = "*"
