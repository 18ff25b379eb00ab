[package]
name = "audible_api"
version = "0.1.0"
edition = "2021"
publish = false

[dependencies]
askama = "0.12"
axum = "0.7"
base64 = "0.22"
chrono = "0.4"
console = "0.15"
hex = "0.4"
json_value_merge = "2"
lazy_static = "1"
r2d2 = "0.8"
r2d2_sqlite = { version = "*", features = ["bundled"] }
rand = "0.8"
reqwest = { version = "0.12", default-features = false, features = ["json", "cookies", "rustls-tls"] }
rsa = { version = "0.9", features = ["sha2"] }
serde = { version = "1", features = ["derive"] }
serde_json = "1"
sha2 = "0.10"
tokio = { version = "1", features = ["full"] }
url = "2"
uuid = { version = "1", features = ["v4"] }
webbrowser = "1"
