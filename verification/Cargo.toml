[package]
name = "rbk_db"
version = "0.1.0"
edition = "2021"
publish = false

[dependencies]
anyhow = "=1.0.104"
clap = { version = "=4.6.7", features = ["derive", "env"] }
clap_complete = "=4.6.11"
csv = "=1.4.0"
flate2 = "=1.1.10"
reqwest = { version = "=0.12.28", default-features = false }
rusqlite = { version = "=0.31.0", features = ["bundled"] }
tempfile = "=3.27.0"
tokio = { version = "=1.53.2", features = ["rt", "macros", "fs", "io-util", "sync"] }
tracing = "=0.1.44"
tracing-subscriber = "=0.3.23"
url = "=2.5.8"
