[package]
name = "rust-analyzer-downloader"
version = "0.1.0"
edition = "2021"
publish = false

[dependencies]
async-compression = { version = "0.4", features = ["tokio", "gzip"] }
async-trait = "0.1"
bytes = "1"
clap = { version = "4", features = ["derive"] }
directories = "5"
futures = "0.3"
futures-util = "0.3"
reqwest = { version = "0.11", features = ["json", "stream", "gzip", "deflate"] }
serde = { version = "1", features = ["derive"] }
thiserror = "1"
time = { version = "0.3", features = ["parsing"] }
tokio = { version = "1", features = ["rt", "time", "process", "fs", "io-util"] }
tracing = "0.1"
tracing-appender = "0.2"
tracing-subscriber = { version = "0.3", features = ["env-filter"] }
