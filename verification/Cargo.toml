[package]
name = "gupaxx"
version = "0.1.0"
edition = "2021"
publish = false

[dependencies]
strip-ansi-escapes = "0.2"
anyhow = "1"
serde = { version = "1", features = ["derive"] }
serde_json = "1"
hyper = { version = "0.14", features = ["client", "http1", "tcp"] }
tokio = { version = "1", features = ["rt", "time", "macros"] }
portable-pty = "0.8"
reqwest = { version = "0.12", default-features = false, features = ["json"] }
reqwest-middleware = "0.4"
