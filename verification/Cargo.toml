[package]
name = "soundcloud_embedder"
version = "0.1.0"
edition = "2021"
publish = false

[dependencies]
anyhow = "1"
env_logger = "0.10"
html-escape = "0.2"
hyper = { version = "0.14", features = ["full"] }
hyper-rustls = { version = "0.24", features = ["acceptor"] }
image = { version = "0.24", default-features = false, features = ["jpeg"] }
lazy_static = "1"
log = "0.4"
ogg = "0.9"
opus = "0.3"
prometheus = "0.13"
redis = { version = "0.27", features = ["tokio-comp", "connection-manager"] }
regex = "1"
reqwest = { version = "0.11", default-features = false, features = ["rustls-tls"] }
rustls = "0.21"
rustls-pemfile = "1"
serde = { version = "1", features = ["derive"] }
serde_json = "1"
tokio = { version = "1", features = ["full"] }
toml = "0.7"
unicode-truncate = "0.2"
urlencoding = "2"
vpx-encode = "0.6"
webm = "1"
