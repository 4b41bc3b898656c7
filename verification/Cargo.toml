[package]
name = "musngr"
version = "0.1.0"
edition = "2021"
publish = false

[dependencies]
scc = "*"
hex = "*"
tokio = { version = "*", features = ["rt-multi-thread", "macros", "process", "fs", "io-util", "time", "sync", "signal"] }
tokio-util = "*"
serde = { version = "*", features = ["derive"] }
serde_json = "*"
toml = "*"
ulid = "*"
time = "*"
base64 = "*"
reqwest = { version = "*", default-features = false, features = ["rustls-tls", "json"] }
url = "*"
