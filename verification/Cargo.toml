[package]
name = "edge_tts_for_legado"
version = "0.1.0"
edition = "2021"
publish = false

[dependencies]
axum = "0.8"
config = { version = "0.15", default-features = false, features = ["toml"] }
dotenvy = "0.15"
edge-tts-rust = "*"
logroller = "*"
serde = { version = "1", features = ["derive"] }
thiserror = "2"
tokio = { version = "1", features = ["macros", "rt-multi-thread", "net", "signal", "time"] }
tower-http = { version = "0.6", features = ["trace"] }
tracing = "0.1"
tracing-appender = "0.2"
tracing-subscriber = { version = "0.3", features = ["env-filter", "fmt"] }
