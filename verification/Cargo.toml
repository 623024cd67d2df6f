[package]
name = "rusty_dlp_bot"
version = "0.1.0"
edition = "2021"
publish = false

[dependencies]
linkify = "=0.11.0"
url = "=2.5.8"
serde = { version = "=1.0.229", features = ["derive"] }
toml = "=1.1.8"
anyhow = "=1.0.104"
thiserror = "=2.0.21"
tokio = { version = "=1.54.1", features = ["macros", "rt-multi-thread", "process", "time"] }
teloxide = { version = "=0.17.0", default-features = false, features = ["macros", "ctrlc_handler", "rustls"] }
takecell = "=0.1.1"
dptree = "=0.5.1"
dotenvy = "=0.15.7"
tempfile = "=3.27.0"
tracing = "=0.1.44"
