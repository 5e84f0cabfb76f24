[package]
name = "embeddy"
version = "0.1.0"
edition = "2021"
publish = false

[dependencies]
axum = { version = "=0.8.9", default-features = false, features = ["http1", "json", "tokio"] }
candle-core = "=0.11.0"
chrono = "=0.4.45"
clap = { version = "=4.6.7", features = ["derive"] }
directories = "=6.0.0"
hf-hub = { version = "=0.5.0", default-features = false, features = ["ureq"] }
memmap2 = "=0.9.12"
safetensors = "=0.8.0"
serde = { version = "=1.0.229", features = ["derive"] }
serde_json = "=1.0.154"
tokenizers = { version = "=0.23.2", default-features = false, features = ["onig"] }
tokio = { version = "=1.54.1", features = ["rt-multi-thread", "macros", "net", "sync"] }
toml = "=1.1.8"
tracing = "=0.1.44"
tracing-subscriber = { version = "=0.3.23", features = ["env-filter"] }
