[package]
name = "journey"
version = "0.1.0"
edition = "2021"
publish = false

[dependencies]
url = "=2.5.8"
uuid = { version = "=1.29.1", features = ["v7"] }
thiserror = "=2.0.21"
serde = { version = "=1.0.229", features = ["derive"] }
anyhow = "=1.0.104"
tokio = { version = "=1.54.1", features = ["rt-multi-thread", "macros", "sync"] }
futures = "=0.3.34"
similar = "=3.2.1"
dotenvy = "=0.15.7"
keyring-core = "=1.0.1"
linux-keyutils-keyring-store = "=1.0.0"
kameo = "=0.22.2"
sea-orm = { version = "=2.0.4", default-features = false, features = ["sqlx-sqlite", "runtime-tokio-rustls", "macros", "with-uuid", "stream", "entity-registry", "schema-sync"] }
tracing = "=0.1.44"
tracing-subscriber = { version = "=0.3.23", features = ["env-filter"] }
