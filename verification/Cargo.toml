[package]
name = "ddrs"
version = "0.1.0"
edition = "2021"
publish = false

[dependencies]
crc32fast = "=1.5.2"
anyhow = "*"
serde = { version = "*", features = ["derive"] }
serde_json = "*"
toml = "*"
clap = { version = "*", features = ["derive"] }
tokio = { version = "*", features = ["macros", "rt-multi-thread", "signal", "time", "fs", "io-util"] }
tokio-util = "*"
reqwest = { version = "=0.13.5", default-features = false, features = ["json", "query"] }
reqwest-middleware = { version = "=0.5.2", features = ["json", "query"] }
reqwest-retry = "=0.9.1"
tempfile = "*"
local-ip-address = "*"
chrono = "*"
secrecy = { version = "*", features = ["serde"] }
tracing = "*"
tracing-subscriber = "*"
