[package]
name = "webring"
version = "0.1.0"
edition = "2021"
publish = false

[dependencies]
chrono = "=0.4.45"
env_logger = "=0.11.11"
ntex = { version = "=2.18.0", features = ["tokio"] }
ntex-files = "=2.1.0"
rand = "=0.9.5"
reqwest = "=0.12.28"
tokio = { version = "=1.54.1", features = ["rt", "sync", "time"] }
zasa = { version = "=0.7.0", features = ["derive"] }
