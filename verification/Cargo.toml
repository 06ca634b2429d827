[package]
name = "wikimedia"
version = "0.1.0"
edition = "2021"
publish = false

[dependencies]
regex = "=1.13.1"
rand = "=0.8.8"
sha1 = "=0.10.7"
num-bigint = "=0.4.8"
num-traits = "=0.2.19"
html-escape = "=0.2.15"
natord = "=1.0.9"
hex = "=0.4.3"
anyhow = "=1.0.104"
clap = { version = "=4.6.7", features = ["derive", "env"] }
serde = { version = "=1.0.229", features = ["derive"] }
serde_json = "=1.0.154"
quick-xml = "=0.28.2"
bzip2 = "=0.4.4"
lz4_flex = "=0.10.0"
zstd = "=0.12.4"
chrono = "=0.4.45"
human_format = "=1.2.1"
tracing = "=0.1.44"
tracing-subscriber = { version = "=0.3.23", features = ["env-filter"] }
reqwest = { version = "=0.11.27", default-features = false, features = ["blocking", "rustls-tls"] }
scraper = "=0.16.0"
mime = "=0.3.17"
encoding_rs = "=0.8.44"
ammonia = "3"
