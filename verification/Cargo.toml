[package]
name = "nominatim"
version = "0.1.0"
edition = "2021"
publish = false

[dependencies]
gloo = { version = "*", default-features = false, features = ["net"] }
reqwest = { version = "=0.12.28", features = ["json"] }
serde = { version = "=1.0.229", features = ["derive"] }
serde_json = "=1.0.154"
serde_urlencoded = "=0.7.1"
url = "=2.5.8"
urlencoding = "=2.1.3"
