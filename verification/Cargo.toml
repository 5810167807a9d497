[package]
name = "open-tethyr"
version = "0.1.0"
edition = "2021"
publish = false

[dependencies]
lru = { version = "=0.12.5", default-features = false }
regex-lite = "=0.1.9"
serde = { version = "=1.0.229", features = ["derive"] }
serde_json = "=1.0.154"
serde_yaml = "=0.9.34"
thiserror = "=2.0.21"
clap = { version = "=4.6.7", features = ["derive"] }
tokio = { version = "=1.54.1", features = ["macros", "rt-multi-thread", "net", "time"] }
axum = "=0.8.9"
tower = "=0.5.3"
reqwest = { version = "=0.12.28", default-features = false, features = ["json"] }
hickory-resolver = "=0.24.4"
tracing = "=0.1.44"
tracing-subscriber = { version = "=0.3.23", features = ["env-filter", "json", "fmt"] }
uuid = { version = "=1.29.1", features = ["v4"] }
chrono = "=0.4.45"
