[package]
name = "vyom"
version = "0.1.0"
edition = "2021"
publish = false

[dependencies]
fuzzy-matcher = "0.3"
mpd = "0.1"
crossterm = "0.28"
ratatui = "0.29"
serde = { version = "1", features = ["derive"] }
serde_json = "1"
toml = "0.8"
reqwest = { version = "0.12", default-features = false, features = ["json", "rustls-tls"] }
tokio = { version = "1", features = ["full"] }
anyhow = "1"
thiserror = "2"
clap = { version = "4", features = ["derive"] }
dirs = "5"
biquad = "0.4"
image = { version = "0.25", default-features = false, features = ["png", "jpeg"] }
lofty = "0.22"
spectrum-analyzer = "1"
fs2 = "0.4"
libc = "0.2"
futures = "0.3"
tracing = "0.1"
tracing-subscriber = "0.3"
