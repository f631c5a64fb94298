[package]
name = "mdbook-reading"
version = "0.1.0"
edition = "2021"
publish = false

[dependencies]
anyhow = "=1.0.104"
clap = { version = "=4.6.7", features = ["derive"] }
env_logger = "=0.11.11"
mdbook = { version = "=0.4.52", default-features = false }
pulldown-cmark = "=0.13.5"
pulldown-cmark-to-cmark = "=21.1.0"
serde = { version = "=1.0.229", features = ["derive"] }
serde_json = "=1.0.154"
serde_yaml = "=0.9.34"
toml = "=0.5.11"
url = "=2.5.8"
