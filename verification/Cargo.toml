[package]
name = "trestle"
version = "1.1.0"
edition = "2021"
publish = false

[dependencies]
urlencoding = "2"
serde = { version = "1", features = ["derive"] }
serde_json = "1"
toml = "0.8"
axum = "0.8"
tokio = { version = "1", features = ["rt-multi-thread", "net", "sync", "macros", "time"] }
reqwest = { version = "0.12", default-features = false, features = ["json", "stream", "blocking", "rustls-tls"] }
rusqlite = { version = "0.32", features = ["bundled"] }
chrono = "0.4"
uuid = { version = "1", features = ["v4"] }
dirs = "5"
tracing = "0.1"
tracing-subscriber = "0.3"
futures = "0.3"
tower-http = { version = "0.6", features = ["cors", "trace"] }
anyhow = "1"
thiserror = "1"
ctrlc = "3"
