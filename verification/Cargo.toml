[package]
name = "fixerss"
version = "0.1.0"
edition = "2021"
publish = false

[dependencies]
scraper = "*"
rss = { version = "*", default-features = false }
chrono = { version = "0.4", default-features = false, features = ["clock", "std"] }
rand = "0.8"
uuid = { version = "1", features = ["v4"] }
serde = { version = "1", features = ["derive"] }
serde_derive = "1"
toml = "*"
tokio = { version = "1", features = ["full"] }
axum = "*"
sqlx = { version = "*", default-features = false, features = ["runtime-tokio", "sqlite", "chrono"] }
reqwest = { version = "*", default-features = false }
anyhow = "1"
thiserror = "*"
tracing = "0.1"
tracing-subscriber = "*"
prometheus = { version = "*", default-features = false }
lazy_static = "1"
cron = "*"
futures = "0.3"
tower = "*"
tower-http = { version = "*", features = ["trace"] }
mime = "0.3"
argh = "*"
ureq = { version = "*", default-features = false }
tap = "1"
rocket = "0.5"
