[package]
name = "kroki"
version = "0.1.0"
edition = "2021"
publish = false

[dependencies]
anyhow = "1"
async-trait = "0.1"
axum = "0.7"
base64 = "0.22"
clap = { version = "4", features = ["derive"] }
clap_complete = "4"
dashmap = "6"
flate2 = "1"
hex = "0.4"
image = { version = "0.25", default-features = false, features = ["png", "webp"] }
reqwest = { version = "0.12", default-features = false, features = ["rustls-tls"] }
resvg = "*"
serde = { version = "1", features = ["derive"] }
serde_json = "1"
sha2 = "0.10"
tempfile = "3"
thiserror = "1"
time = { version = "0.3", features = ["macros", "local-offset", "formatting"] }
tokio = { version = "1", features = ["full"] }
toml = "0.8"
tracing = "0.1"
tracing-subscriber = { version = "0.3", features = ["env-filter", "fmt", "local-time"] }
