[package]
name = "zincati"
version = "0.1.0"
edition = "2021"
publish = false

[dependencies]
actix = "0.7"
dbus = "0.6"
dbus-tokio = "0.3"
env_logger = "0.6"
failure = "0.1"
futures = "0.1"
lazy_static = "1"
log = "0.4"
reqwest = { version = "0.9", default-features = false }
serde = "1"
serde_derive = "1"
serde_json = "1"
structopt = "0.2"
toml = "0.4"
url_serde = "0.2"
uuid = { version = "0.7", features = ["serde"] }
