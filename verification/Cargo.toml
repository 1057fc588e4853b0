[package]
name = "belfry_core"
version = "0.0.2"
edition = "2021"
publish = false

[dependencies]
quick-xml = "=0.37.5"
chrono = { version = "=0.4.45", features = ["serde"] }
rusqlite = { version = "=0.32.1", features = ["bundled"] }
tokio = { version = "=1.54.1", features = ["rt-multi-thread", "sync", "macros"] }
serde = { version = "=1.0.229", features = ["derive"] }
thiserror = "=2.0.21"
anyhow = "=1.0.104"
clap = { version = "=4.6.7", features = ["derive"] }
tracing = "=0.1.44"
tracing-subscriber = "=0.3.23"
libadwaita = "=0.9.2"
